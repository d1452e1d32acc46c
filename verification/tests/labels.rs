use typesafe_sdk::labels::{capitalise, enum_name, pascal};

#[test]
fn snake_kebab_and_spaced_names_become_pascal_case() {
    assert_eq!(pascal("category"), "Category");
    assert_eq!(pascal("can wait"), "CanWait");
    assert_eq!(pascal("this-week"), "ThisWeek");
    assert_eq!(pascal("__two__words__"), "TwoWords");
    assert_eq!(pascal("SHOUTING_label"), "ShoutingLabel");
    assert_eq!(pascal(""), "");
}

#[test]
fn capitalising_lowers_the_rest() {
    assert_eq!(capitalise("bILLING"), "Billing");
    assert_eq!(capitalise("ßtraße"), "SStraße");
    assert_eq!(capitalise(""), "");
}

#[test]
fn a_choice_field_names_its_enum_after_the_struct() {
    assert_eq!(enum_name("Ticket", "category"), "TicketCategory");
    assert_eq!(enum_name("Ticket", "next_step"), "TicketNextStep");
}

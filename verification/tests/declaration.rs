use typesafe_sdk::declaration::{
    doc_of, kind_of, model, one, question, Attribute, Declared, Field, Kind, Question, Shape,
};

fn texts(xs: &[&str]) -> Vec<String> {
    xs.iter().map(|s| (*s).to_owned()).collect()
}

fn field(name: &str, attrs: Vec<Attribute>) -> Field {
    Field { name: Some(name.to_owned()), attrs }
}

#[test]
fn a_ticket_declaration_reads_as_its_questions() {
    let shape = Shape::Named(vec![
        field(
            "category",
            vec![
                Attribute::Doc(" What is this ticket about?".to_owned()),
                Attribute::Question(Declared::Choice(Ok(texts(&["billing", "technical", "other"])))),
            ],
        ),
        field(
            "urgency",
            vec![
                Attribute::Doc(" How urgent".to_owned()),
                Attribute::Other,
                Attribute::Doc(" is it?  ".to_owned()),
                Attribute::Question(Declared::Score(Ok(texts(&["can wait", "this week", "today"])))),
            ],
        ),
        field("angry", vec![Attribute::Question(Declared::Noul)]),
    ]);
    let read = model("Ticket", &shape).unwrap();
    assert_eq!(read.name, "Ticket");
    assert_eq!(
        read.questions,
        vec![
            Question {
                name: "category".to_owned(),
                instructions: "What is this ticket about?".to_owned(),
                kind: Kind::Choice(texts(&["billing", "technical", "other"])),
            },
            Question {
                name: "urgency".to_owned(),
                instructions: "How urgent is it?".to_owned(),
                kind: Kind::Score(texts(&["can wait", "this week", "today"])),
            },
            Question { name: "angry".to_owned(), instructions: String::new(), kind: Kind::Noul },
        ]
    );
}

#[test]
fn each_attribute_declares_its_kind_or_says_what_is_wrong() {
    assert_eq!(one(&Declared::Noul), Ok(Kind::Noul));
    assert_eq!(one(&Declared::Choice(Ok(texts(&["a"])))), Ok(Kind::Choice(texts(&["a"]))));
    assert_eq!(
        one(&Declared::Choice(Ok(Vec::new()))),
        Err("expected at least one entry".to_owned())
    );
    assert_eq!(
        one(&Declared::Score(Ok(texts(&["only"])))),
        Err("a score rubric needs at least two entries; one score cannot express a comparison".to_owned())
    );
    assert_eq!(
        one(&Declared::Score(Err("expected a label or a string".to_owned()))),
        Err("expected a label or a string".to_owned())
    );
}

#[test]
fn a_field_carries_exactly_one_question_attribute() {
    assert_eq!(
        kind_of(&vec![Attribute::Doc("text".to_owned()), Attribute::Other]),
        Err("each field needs one of #[noul], #[choice(..)] or #[score(..)]".to_owned())
    );
    assert_eq!(
        kind_of(&vec![
            Attribute::Question(Declared::Noul),
            Attribute::Question(Declared::Choice(Ok(texts(&["a"])))),
        ]),
        Err("a field may carry only one question attribute".to_owned())
    );
    assert_eq!(
        question(&Field { name: None, attrs: vec![Attribute::Question(Declared::Noul)] }),
        Err("every question field must be named".to_owned())
    );
    assert_eq!(doc_of(&vec![Attribute::Doc("  one ".to_owned()), Attribute::Doc("two".to_owned())]), "one two");
}

#[test]
fn only_a_struct_with_named_fields_declares_questions() {
    assert_eq!(
        model("Ticket", &Shape::Unnamed),
        Err("Questions needs named fields; each one becomes an answer".to_owned())
    );
    assert_eq!(
        model("Ticket", &Shape::NotAStruct),
        Err("Questions can only be derived for a struct".to_owned())
    );
    let shape = Shape::Named(vec![
        field("fine", vec![Attribute::Question(Declared::Noul)]),
        field("bare", vec![]),
        field(
            "doubled",
            vec![Attribute::Question(Declared::Noul), Attribute::Question(Declared::Noul)],
        ),
    ]);
    assert_eq!(
        model("Ticket", &shape),
        Err("each field needs one of #[noul], #[choice(..)] or #[score(..)]".to_owned())
    );
}

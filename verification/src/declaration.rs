//! Reading a question struct's declaration into questions.
//!
//! A field becomes one question: its name is the answer's name, its doc
//! comment the question text, and exactly one of `#[noul]`, `#[choice(..)]`
//! or `#[score(..)]` its kind. The attribute syntax itself is read by the
//! compiler's parser; what the declaration means, and what a malformed one is
//! refused with, is decided here.

use vstd::prelude::*;

use crate::text::{append, append_str, chars_of, copy_all, join, owned, string_of, texts, trim, trim_chars};

verus! {

/// A question attribute, with the entries the parser read from it.
#[derive(Debug)]
pub enum Declared {
    /// `#[noul]`.
    Noul,
    /// `#[choice(..)]`: its labels, or the parser's complaint about them.
    Choice(Result<Vec<String>, String>),
    /// `#[score(..)]`: its rubric, or the parser's complaint about it.
    Score(Result<Vec<String>, String>),
}

/// One attribute on a field.
#[derive(Debug)]
pub enum Attribute {
    /// One line of the doc comment, as its string literal holds it.
    Doc(String),
    /// A question attribute.
    Question(Declared),
    /// Anything else, which says nothing about the question.
    Other,
}

/// What kind of question a field declares.
#[derive(Debug, Clone, PartialEq, Eq)]
pub enum Kind {
    /// A yes/no question.
    Noul,
    /// A selection between labels.
    Choice(Vec<String>),
    /// A score against an ordered rubric.
    Score(Vec<String>),
}

/// One field of the question struct.
#[derive(Debug)]
pub struct Field {
    /// The field's name; always present on a struct with named fields.
    pub name: Option<String>,
    /// Its attributes, in the order written.
    pub attrs: Vec<Attribute>,
}

/// The shape of the type the questions are derived from.
#[derive(Debug)]
pub enum Shape {
    /// A struct with named fields.
    Named(Vec<Field>),
    /// A struct whose fields are unnamed, or that has none.
    Unnamed,
    /// An enum or a union.
    NotAStruct,
}

/// One question, as declared on a field.
#[derive(Debug, Clone, PartialEq, Eq)]
pub struct Question {
    /// The field's name, which becomes the answer's name.
    pub name: String,
    /// The question text, taken from the doc comment.
    pub instructions: String,
    /// What kind of question it is.
    pub kind: Kind,
}

/// A whole question struct.
#[derive(Debug, Clone, PartialEq, Eq)]
pub struct Model {
    /// The struct's name.
    pub name: String,
    /// Its questions, in declaration order.
    pub questions: Vec<Question>,
}

/// The message a field without a question attribute is refused with.
pub open spec fn no_kind_message() -> Seq<char> {
    "each field needs one of #[noul], #[choice(..)] or #[score(..)]"@
}

/// The message a field with two question attributes is refused with.
pub open spec fn two_kinds_message() -> Seq<char> {
    "a field may carry only one question attribute"@
}

/// The message an empty label list or rubric is refused with.
pub open spec fn no_entries_message() -> Seq<char> {
    "expected at least one entry"@
}

/// The message a one-level rubric is refused with.
pub open spec fn short_rubric_message() -> Seq<char> {
    "a score rubric needs at least two entries; one score cannot express a comparison"@
}

/// The message a field without a name is refused with.
pub open spec fn unnamed_field_message() -> Seq<char> {
    "every question field must be named"@
}

/// The message a type that is not a struct is refused with.
pub open spec fn not_a_struct_message() -> Seq<char> {
    "Questions can only be derived for a struct"@
}

/// The message a struct without named fields is refused with.
pub open spec fn unnamed_fields_message() -> Seq<char> {
    "Questions needs named fields; each one becomes an answer"@
}

/// Whether the attribute `d` declares a question: a noul always, a choice
/// with at least one label, a score with at least two levels.
pub open spec fn declared_ok(d: Declared) -> bool {
    match d {
        Declared::Noul => true,
        Declared::Choice(Ok(es)) => es@.len() > 0,
        Declared::Score(Ok(es)) => es@.len() >= 2,
        _ => false,
    }
}

/// `r` is what the question attribute `d` declares, or why it declares nothing.
pub open spec fn declares(d: Declared, r: Result<Kind, String>) -> bool {
    match d {
        Declared::Noul => r matches Ok(Kind::Noul),
        Declared::Choice(Err(e)) => r matches Err(m) && m@ == e@,
        Declared::Choice(Ok(es)) => if es@.len() == 0 {
            r matches Err(m) && m@ == no_entries_message()
        } else {
            r matches Ok(Kind::Choice(ls)) && texts(ls@) == texts(es@)
        },
        Declared::Score(Err(e)) => r matches Err(m) && m@ == e@,
        Declared::Score(Ok(es)) => if es@.len() == 0 {
            r matches Err(m) && m@ == no_entries_message()
        } else if es@.len() < 2 {
            r matches Err(m) && m@ == short_rubric_message()
        } else {
            r matches Ok(Kind::Score(ls)) && texts(ls@) == texts(es@)
        },
    }
}

/// The question attributes among `attrs`, in order.
pub open spec fn question_attrs(attrs: Seq<Attribute>) -> Seq<Declared>
    decreases attrs.len(),
{
    if attrs.len() == 0 {
        Seq::empty()
    } else {
        let prev = question_attrs(attrs.drop_last());
        match attrs.last() {
            Attribute::Question(d) => prev.push(d),
            _ => prev,
        }
    }
}

/// The doc-comment lines among `attrs`, each trimmed, in order.
pub open spec fn doc_lines(attrs: Seq<Attribute>) -> Seq<Seq<char>>
    decreases attrs.len(),
{
    if attrs.len() == 0 {
        Seq::empty()
    } else {
        let prev = doc_lines(attrs.drop_last());
        match attrs.last() {
            Attribute::Doc(line) => prev.push(trim(line@)),
            _ => prev,
        }
    }
}

/// The question text: the doc comment's lines, trimmed, joined by spaces.
pub open spec fn doc_text(attrs: Seq<Attribute>) -> Seq<char> {
    join(doc_lines(attrs), " "@)
}

/// Whether the field `f` reads as a question.
pub open spec fn field_ok(f: Field) -> bool {
    let qs = question_attrs(f.attrs@);
    f.name is Some && qs.len() == 1 && declared_ok(qs[0])
}

/// `r` is what the field `f` reads as: its question, or why it has none.
/// A missing name is reported first, then a missing or doubled question
/// attribute, then what is wrong with the attribute itself.
pub open spec fn field_reads(f: Field, r: Result<Question, String>) -> bool {
    let qs = question_attrs(f.attrs@);
    match f.name {
        None => r matches Err(m) && m@ == unnamed_field_message(),
        Some(n) => if qs.len() == 0 {
            r matches Err(m) && m@ == no_kind_message()
        } else if qs.len() > 1 {
            r matches Err(m) && m@ == two_kinds_message()
        } else {
            match r {
                Ok(q) => q.name@ == n@ && q.instructions@ == doc_text(f.attrs@) && declares(qs[0], Ok(q.kind)),
                Err(m) => declares(qs[0], Err(m)),
            }
        },
    }
}

/// `r` is what a type named `name` of shape `shape` reads as: every field's
/// question in order, or the complaint about the first field that has none.
pub open spec fn reads_model(name: Seq<char>, shape: Shape, r: Result<Model, String>) -> bool {
    match shape {
        Shape::NotAStruct => r matches Err(m) && m@ == not_a_struct_message(),
        Shape::Unnamed => r matches Err(m) && m@ == unnamed_fields_message(),
        Shape::Named(fields) => match r {
            Ok(model) => {
                &&& model.name@ == name
                &&& model.questions@.len() == fields@.len()
                &&& forall|i: int| 0 <= i < fields@.len() ==> field_reads(#[trigger] fields@[i], Ok(model.questions@[i]))
            },
            Err(m) => exists|i: int| {
                &&& 0 <= i < fields@.len()
                &&& forall|j: int| 0 <= j < i ==> field_ok(#[trigger] fields@[j])
                &&& field_reads(#[trigger] fields@[i], Err(m))
            },
        },
    }
}

/// The message `text`, owned.
fn message(text: &str) -> (r: String)
    ensures
        r@ == text@,
{
    owned(text)
}

/// Reads one question attribute into the kind it declares.
pub fn one(d: &Declared) -> (r: Result<Kind, String>)
    ensures
        declares(*d, r),
        r is Ok <==> declared_ok(*d),
{
    match d {
        Declared::Noul => Ok(Kind::Noul),
        Declared::Choice(Err(e)) => Err(owned(e.as_str())),
        Declared::Choice(Ok(es)) => {
            if es.len() == 0 {
                Err(message("expected at least one entry"))
            } else {
                Ok(Kind::Choice(copy_all(es)))
            }
        },
        Declared::Score(Err(e)) => Err(owned(e.as_str())),
        Declared::Score(Ok(es)) => {
            if es.len() == 0 {
                Err(message("expected at least one entry"))
            } else if es.len() < 2 {
                Err(message("a score rubric needs at least two entries; one score cannot express a comparison"))
            } else {
                Ok(Kind::Score(copy_all(es)))
            }
        },
    }
}

/// Which question attribute the field carries, and what it declares.
pub fn kind_of(attrs: &Vec<Attribute>) -> (r: Result<Kind, String>)
    ensures
        question_attrs(attrs@).len() == 0 ==> (r matches Err(m) && m@ == no_kind_message()),
        question_attrs(attrs@).len() > 1 ==> (r matches Err(m) && m@ == two_kinds_message()),
        question_attrs(attrs@).len() == 1 ==> declares(question_attrs(attrs@)[0], r),
{
    let mut found: Option<usize> = None;
    let mut count: usize = 0;
    let mut i: usize = 0;
    while i < attrs.len()
        invariant
            i <= attrs.len(),
            count == question_attrs(attrs@.take(i as int)).len(),
            count <= i,
            count >= 1 ==> (found matches Some(k) && k < attrs.len()
                && (attrs@[k as int] matches Attribute::Question(d) && d == question_attrs(attrs@.take(i as int))[0])),
        decreases attrs.len() - i,
    {
        proof {
            assert(attrs@.take(i + 1).drop_last() =~= attrs@.take(i as int));
            lemma_question_attrs_prefix(attrs@.take(i as int), attrs@.take(i + 1));
        }
        if let Attribute::Question(_) = &attrs[i] {
            if count == 0 {
                found = Some(i);
            }
            count = count + 1;
        }
        i = i + 1;
    }
    assert(attrs@.take(attrs.len() as int) =~= attrs@);
    if count == 0 {
        return Err(message("each field needs one of #[noul], #[choice(..)] or #[score(..)]"));
    }
    if count > 1 {
        return Err(message("a field may carry only one question attribute"));
    }
    match found {
        Some(k) => match &attrs[k] {
            Attribute::Question(d) => one(d),
            _ => Err(message("each field needs one of #[noul], #[choice(..)] or #[score(..)]")),
        },
        None => Err(message("each field needs one of #[noul], #[choice(..)] or #[score(..)]")),
    }
}

/// Extending the attributes never changes the question attributes already
/// found among them.
proof fn lemma_question_attrs_prefix(short: Seq<Attribute>, long: Seq<Attribute>)
    requires
        short.len() + 1 == long.len(),
        long.drop_last() == short,
    ensures
        question_attrs(short).len() >= 1 ==> question_attrs(long)[0] == question_attrs(short)[0],
        question_attrs(long).len() >= question_attrs(short).len(),
{
}

/// The doc comment, each line trimmed, joined with spaces: the question text.
pub fn doc_of(attrs: &Vec<Attribute>) -> (r: String)
    ensures
        r@ == doc_text(attrs@),
{
    let mut out: Vec<char> = Vec::new();
    let mut seen: usize = 0;
    let mut i: usize = 0;
    while i < attrs.len()
        invariant
            i <= attrs.len(),
            seen == doc_lines(attrs@.take(i as int)).len(),
            seen <= i,
            out@ == join(doc_lines(attrs@.take(i as int)), " "@),
        decreases attrs.len() - i,
    {
        let ghost before = doc_lines(attrs@.take(i as int));
        proof {
            assert(attrs@.take(i + 1).drop_last() =~= attrs@.take(i as int));
        }
        if let Attribute::Doc(line) = &attrs[i] {
            let trimmed = trim_chars(&chars_of(line.as_str()));
            if seen > 0 {
                append_str(&mut out, " ");
            }
            append(&mut out, &trimmed);
            proof {
                let after = doc_lines(attrs@.take(i + 1));
                assert(after == before.push(trimmed@));
                if before.len() == 0 {
                    assert(after.len() == 1);
                } else {
                    assert(after.drop_last() =~= before);
                }
            }
            seen = seen + 1;
        }
        i = i + 1;
    }
    assert(attrs@.take(attrs.len() as int) =~= attrs@);
    string_of(&out)
}

/// Reads one field into a question.
pub fn question(field: &Field) -> (r: Result<Question, String>)
    ensures
        field_reads(*field, r),
        r is Ok <==> field_ok(*field),
{
    let name = match &field.name {
        Some(n) => owned(n.as_str()),
        None => return Err(message("every question field must be named")),
    };
    let instructions = doc_of(&field.attrs);
    match kind_of(&field.attrs) {
        Ok(kind) => Ok(Question { name, instructions, kind }),
        Err(e) => Err(e),
    }
}

/// Every field's question, in order, or the complaint about the first field
/// that has none.
fn questions_of(name: &str, fields: &Vec<Field>) -> (r: Result<Model, String>)
    ensures
        reads_model(name@, Shape::Named(*fields), r),
{
    let mut questions: Vec<Question> = Vec::new();
    let mut i: usize = 0;
    while i < fields.len()
        invariant
            i <= fields.len(),
            questions@.len() == i,
            forall|j: int| 0 <= j < i ==> field_reads(#[trigger] fields@[j], Ok(questions@[j])),
            forall|j: int| 0 <= j < i ==> field_ok(#[trigger] fields@[j]),
        decreases fields.len() - i,
    {
        match question(&fields[i]) {
            Ok(q) => questions.push(q),
            Err(e) => {
                proof {
                    let k = i as int;
                    assert(field_reads(fields@[k], Err(e)));
                    let sh = Shape::Named(*fields);
                    assert(sh matches Shape::Named(fs) && fs == *fields);
                    let r: Result<Model, String> = Err(e);
                    assert(r matches Err(m) && m == e);
                }
                return Err(e);
            },
        }
        i = i + 1;
    }
    Ok(Model { name: owned(name), questions })
}

/// Reads the type the questions are derived from: every field's question in
/// declaration order, or the complaint about the first field that has none.
pub fn model(name: &str, shape: &Shape) -> (r: Result<Model, String>)
    ensures
        reads_model(name@, *shape, r),
{
    match shape {
        Shape::Named(fields) => questions_of(name, fields),
        Shape::Unnamed => Err(message("Questions needs named fields; each one becomes an answer")),
        Shape::NotAStruct => Err(message("Questions can only be derived for a struct")),
    }
}

} // verus!

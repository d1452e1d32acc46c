//! Shared plumbing for the commands.
//!
//! Error codes are stable strings because agents branch on them, so they are
//! derived from the error's kind rather than its message.

use vstd::prelude::*;

use crate::answers::Usage as ResponseUsage;
use crate::error::{ApiErrorKind, Error};
use crate::json::{json_strings, parse_strings};
use crate::text::{
    append_str, blank, chars_of, is_blank, lemma_trim_empty_iff_blank, lit, string_of, texts, trim, trim_chars,
};

verus! {

/// The argument that means "read this from standard input".
pub const STDIN: &'static str = "-";

/// The code each API failure is reported under.
pub open spec fn api_code_of(kind: ApiErrorKind) -> Seq<char> {
    match kind {
        ApiErrorKind::BadRequest => "BAD_REQUEST"@,
        ApiErrorKind::Authentication => "AUTHENTICATION_ERROR"@,
        ApiErrorKind::PermissionDenied => "PERMISSION_DENIED"@,
        ApiErrorKind::NotFound => "NOT_FOUND"@,
        ApiErrorKind::UnprocessableEntity => "UNPROCESSABLE_ENTITY"@,
        ApiErrorKind::RateLimit => "RATE_LIMIT"@,
        ApiErrorKind::InternalServer => "INTERNAL_SERVER_ERROR"@,
        ApiErrorKind::Other => "API_ERROR"@,
    }
}

/// The stable code a failure is reported under.
pub open spec fn code_of(e: Error) -> Seq<char> {
    match e {
        Error::Timeout { .. } => "TIMEOUT"@,
        Error::Connection { .. } => "CONNECTION_ERROR"@,
        Error::UserAbort { .. } => "CANCELLED"@,
        Error::Invalid(_) => "VALIDATION_ERROR"@,
        Error::Api(api) => api_code_of(api.kind),
    }
}

/// Whether trying the same command again could plausibly succeed.
pub open spec fn worth_repeating(e: Error) -> bool {
    match e {
        Error::Timeout { .. } | Error::Connection { .. } => true,
        Error::Api(api) => api.kind == ApiErrorKind::RateLimit || api.kind == ApiErrorKind::InternalServer,
        Error::UserAbort { .. } | Error::Invalid(_) => false,
    }
}

/// Which failures are worth repeating: every delivery failure (a connection
/// failure or a timeout), a rate limit and a server error; never a
/// cancellation, a rejection before sending, or any other API failure. Every
/// failure the client itself retries is among them.
pub proof fn law_worth_repeating(e: Error)
    ensures
        (e is Connection || e is Timeout) ==> worth_repeating(e),
        (e is UserAbort || e is Invalid) ==> !worth_repeating(e),
        e is Api && e->Api_0.kind == crate::error::api::kind_of(e->Api_0.status)
            ==> (worth_repeating(e) <==> (e->Api_0.status == 429 || e->Api_0.status >= 500)),
        crate::retry::retryable_error(e) ==> worth_repeating(e),
{
}

/// The stable code a failure is reported under.
///
/// These names are part of the command line's contract: a caller that
/// retries on `RATE_LIMIT` or re-prompts on `AUTHENTICATION_ERROR` depends on
/// them not drifting when a message is reworded.
pub fn code_for(error: &Error) -> (r: &'static str)
    ensures
        r@ == code_of(*error),
{
    match error {
        Error::Timeout { .. } => "TIMEOUT",
        Error::Connection { .. } => "CONNECTION_ERROR",
        Error::UserAbort { .. } => "CANCELLED",
        Error::Invalid(_) => "VALIDATION_ERROR",
        Error::Api(api) => api_code(api.kind),
    }
}

/// The code for each API failure.
fn api_code(kind: ApiErrorKind) -> (r: &'static str)
    ensures
        r@ == api_code_of(kind),
{
    match kind {
        ApiErrorKind::BadRequest => "BAD_REQUEST",
        ApiErrorKind::Authentication => "AUTHENTICATION_ERROR",
        ApiErrorKind::PermissionDenied => "PERMISSION_DENIED",
        ApiErrorKind::NotFound => "NOT_FOUND",
        ApiErrorKind::UnprocessableEntity => "UNPROCESSABLE_ENTITY",
        ApiErrorKind::RateLimit => "RATE_LIMIT",
        ApiErrorKind::InternalServer => "INTERNAL_SERVER_ERROR",
        ApiErrorKind::Other => "API_ERROR",
    }
}

/// Whether trying the same command again could plausibly succeed.
pub fn retryable(error: &Error) -> (r: bool)
    ensures
        r == worth_repeating(*error),
{
    match error {
        Error::Timeout { .. } | Error::Connection { .. } => true,
        Error::Api(api) => match api.kind {
            ApiErrorKind::RateLimit | ApiErrorKind::InternalServer => true,
            _ => false,
        },
        Error::UserAbort { .. } | Error::Invalid(_) => false,
    }
}

/// Tokens consumed, as the command line reports them.
#[derive(Debug, Clone, Copy, PartialEq, Eq, Structural)]
pub struct Usage {
    /// Input tokens used.
    pub input_tokens: u64,
    /// Output tokens used.
    pub output_tokens: u64,
}

/// `a + b`, stopping at the largest `u64` rather than wrapping.
pub open spec fn saturated(a: int, b: int) -> int {
    if a + b > u64::MAX { u64::MAX as int } else { a + b }
}

/// A running total never goes backwards: adding a response's tokens leaves
/// it where it was or higher, by exactly what was added until it stops at the
/// largest `u64`.
pub proof fn law_total_never_decreases(total: u64, more: u64)
    ensures
        total <= saturated(total as int, more as int) <= u64::MAX,
        saturated(total as int, more as int) == total + more
            || saturated(total as int, more as int) == u64::MAX,
{
}

impl Usage {
    /// No tokens.
    pub fn zero() -> (r: Usage)
        ensures
            r.input_tokens == 0 && r.output_tokens == 0,
    {
        Usage { input_tokens: 0, output_tokens: 0 }
    }

    /// Adds one response's tokens to the running total.
    ///
    /// Saturating rather than wrapping: reporting a total that went backwards
    /// would be worse than reporting one that stopped climbing.
    pub fn add(&mut self, other: &ResponseUsage)
        ensures
            final(self).input_tokens == saturated(old(self).input_tokens as int, other.input_tokens as int),
            final(self).output_tokens == saturated(old(self).output_tokens as int, other.output_tokens as int),
    {
        self.input_tokens = self.input_tokens.saturating_add(other.input_tokens);
        self.output_tokens = self.output_tokens.saturating_add(other.output_tokens);
    }

    /// The tokens one response consumed.
    pub fn from_response(usage: &ResponseUsage) -> (r: Usage)
        ensures
            r.input_tokens == usage.input_tokens,
            r.output_tokens == usage.output_tokens,
    {
        let mut total = Usage::zero();
        total.add(usage);
        total
    }
}

impl Default for Usage {
    fn default() -> (r: Usage)
        ensures
            r.input_tokens == 0 && r.output_tokens == 0,
    {
        Usage::zero()
    }
}

/// The message empty standard input is refused with.
pub open spec fn empty_stdin_message() -> Seq<char> {
    "standard input was empty; `-` means read the text from stdin"@
}

/// Text read from standard input, refused when it is blank.
pub fn require_text(buffer: String) -> (r: Result<String, Error>)
    ensures
        is_blank(buffer@) ==> (r matches Err(Error::Invalid(m)) && m@ == empty_stdin_message()),
        !is_blank(buffer@) ==> (r matches Ok(t) && t@ == buffer@),
{
    let cs = chars_of(buffer.as_str());
    if blank(&cs) {
        return Err(Error::invalid("standard input was empty; `-` means read the text from stdin"));
    }
    Ok(buffer)
}

/// `s` cut at every newline: the pieces between line feeds, the last one
/// included even when empty.
pub open spec fn pieces(s: Seq<char>) -> Seq<Seq<char>>
    decreases s.len(),
{
    if s.len() == 0 {
        seq![Seq::empty()]
    } else {
        let prev = pieces(s.drop_last());
        if s.last() == '\n' {
            prev.push(Seq::empty())
        } else {
            prev.update(prev.len() - 1, prev.last().push(s.last()))
        }
    }
}

/// The trimmed pieces that are not blank, in order.
pub open spec fn kept_lines(ps: Seq<Seq<char>>) -> Seq<Seq<char>>
    decreases ps.len(),
{
    if ps.len() == 0 {
        Seq::empty()
    } else {
        let prev = kept_lines(ps.drop_last());
        if trim(ps.last()).len() > 0 { prev.push(trim(ps.last())) } else { prev }
    }
}

/// The items one per line of `raw`: each line trimmed (which also drops the
/// carriage return of a `\r\n` ending), blank lines dropped.
pub open spec fn line_items(raw: Seq<char>) -> Seq<Seq<char>> {
    kept_lines(pieces(raw))
}

/// The message input without items is refused with.
pub open spec fn no_items_message() -> Seq<char> {
    "standard input held no items; pass one per line"@
}

proof fn lemma_pieces_nonempty(s: Seq<char>)
    ensures
        pieces(s).len() >= 1,
    decreases s.len(),
{
    if s.len() > 0 {
        lemma_pieces_nonempty(s.drop_last());
    }
}

proof fn lemma_pieces_without_newline(s: Seq<char>)
    requires
        forall|i: int| 0 <= i < s.len() ==> s[i] != '\n',
    ensures
        pieces(s) == seq![s],
    decreases s.len(),
{
    if s.len() > 0 {
        lemma_pieces_without_newline(s.drop_last());
        assert(s.drop_last().push(s.last()) =~= s);
        assert(pieces(s) =~= seq![s]);
    } else {
        assert(s =~= Seq::<char>::empty());
    }
}

proof fn lemma_pieces_split(a: Seq<char>, b: Seq<char>)
    ensures
        pieces(a + seq!['\n'] + b) == pieces(a) + pieces(b),
    decreases b.len(),
{
    let x = a + seq!['\n'] + b;
    if b.len() == 0 {
        assert(x.drop_last() =~= a);
        assert(x.last() == '\n');
        assert(pieces(b) =~= seq![Seq::<char>::empty()]);
        assert(pieces(x) =~= pieces(a) + pieces(b));
    } else {
        let b0 = b.drop_last();
        let c = b.last();
        lemma_pieces_split(a, b0);
        lemma_pieces_nonempty(b0);
        assert(x.drop_last() =~= a + seq!['\n'] + b0);
        assert(x.last() == c);
        assert(b.drop_last() == b0);
        let p = pieces(a);
        let q = pieces(b0);
        if c == '\n' {
            assert(pieces(x) =~= p + pieces(b));
        } else {
            assert((p + q).last() == q.last());
            assert(pieces(x) =~= p + pieces(b));
        }
    }
}

proof fn lemma_kept_lines_split(p: Seq<Seq<char>>, q: Seq<Seq<char>>)
    ensures
        kept_lines(p + q) == kept_lines(p) + kept_lines(q),
    decreases q.len(),
{
    if q.len() == 0 {
        assert(p + q =~= p);
        assert(kept_lines(p) + kept_lines(q) =~= kept_lines(p));
    } else {
        lemma_kept_lines_split(p, q.drop_last());
        assert((p + q).drop_last() =~= p + q.drop_last());
        assert((p + q).last() == q.last());
        assert(kept_lines(p + q) =~= kept_lines(p) + kept_lines(q));
    }
}

/// Items are cut at line feeds and nowhere else: text with no line feed is
/// one item, itself trimmed, unless it is blank.
pub proof fn law_one_line_is_one_item(s: Seq<char>)
    requires
        forall|i: int| 0 <= i < s.len() ==> s[i] != '\n',
    ensures
        line_items(s) == if trim(s).len() > 0 { seq![trim(s)] } else { Seq::<Seq<char>>::empty() },
{
    lemma_pieces_without_newline(s);
    let one = seq![s];
    assert(one.drop_last() =~= Seq::<Seq<char>>::empty());
    assert(one.last() == s);
    assert(kept_lines(Seq::<Seq<char>>::empty()) == Seq::<Seq<char>>::empty());
    assert(kept_lines(one) == if trim(s).len() > 0 {
        kept_lines(one.drop_last()).push(trim(s))
    } else {
        kept_lines(one.drop_last())
    });
    assert(Seq::<Seq<char>>::empty().push(trim(s)) =~= seq![trim(s)]);
}

/// Joining two texts with a line feed joins their items: the items of each
/// line, in order, and nothing across the break.
pub proof fn law_items_of_joined_lines(a: Seq<char>, b: Seq<char>)
    ensures
        line_items(a + seq!['\n'] + b) == line_items(a) + line_items(b),
{
    lemma_pieces_split(a, b);
    lemma_kept_lines_split(pieces(a), pieces(b));
}

/// The items of text read from standard input, one per line, blank lines
/// dropped; refused when there are none.
pub fn lines_of(raw: &str) -> (r: Result<Vec<String>, Error>)
    ensures
        line_items(raw@).len() == 0 ==> (r matches Err(Error::Invalid(m)) && m@ == no_items_message()),
        line_items(raw@).len() > 0 ==> (r matches Ok(items)
            && items@.map_values(|s: String| s@) == line_items(raw@)),
{
    let cs = chars_of(raw);
    let mut out: Vec<String> = Vec::new();
    let mut current: Vec<char> = Vec::new();
    let mut i: usize = 0;
    proof {
        assert(cs@.take(0) =~= Seq::<char>::empty());
    }
    while i < cs.len()
        invariant
            i <= cs.len(),
            cs@ == raw@,
            pieces(cs@.take(i as int)).len() >= 1,
            current@ == pieces(cs@.take(i as int)).last(),
            out@.map_values(|s: String| s@) == kept_lines(pieces(cs@.take(i as int)).drop_last()),
        decreases cs.len() - i,
    {
        let ghost prefix = cs@.take(i as int);
        let ghost next = cs@.take(i + 1);
        assert(next.drop_last() =~= prefix);
        assert(next.last() == cs@[i as int]);
        proof {
            lemma_pieces_nonempty(prefix);
            lemma_pieces_nonempty(next);
        }
        if cs[i] == '\n' {
            let t = trim_chars(&current);
            if t.len() > 0 {
                out.push(string_of(&t));
            }
            proof {
                assert(pieces(next) == pieces(prefix).push(Seq::empty()));
                assert(pieces(next).drop_last() =~= pieces(prefix));
                let pp = pieces(prefix);
                assert(pp.drop_last().push(pp.last()) =~= pp);
                assert(out@.map_values(|s: String| s@) =~= kept_lines(pieces(next).drop_last()));
            }
            current = Vec::new();
            assert(current@ =~= pieces(next).last());
        } else {
            current.push(cs[i]);
            proof {
                let pp = pieces(prefix);
                assert(pieces(next) == pp.update(pp.len() - 1, pp.last().push(cs@[i as int])));
                assert(pieces(next).drop_last() =~= pp.drop_last());
            }
        }
        i = i + 1;
    }
    let t = trim_chars(&current);
    if t.len() > 0 {
        out.push(string_of(&t));
    }
    proof {
        assert(cs@.take(cs.len() as int) =~= cs@);
        let pp = pieces(cs@);
        assert(pp.drop_last().push(pp.last()) =~= pp);
        assert(out@.map_values(|s: String| s@) =~= kept_lines(pp));
    }
    if out.len() == 0 {
        return Err(Error::invalid("standard input held no items; pass one per line"));
    }
    Ok(out)
}

/// The items of an items file that are not blank, kept as written.
pub open spec fn nonblank(items: Seq<Seq<char>>) -> Seq<Seq<char>>
    decreases items.len(),
{
    if items.len() == 0 {
        Seq::empty()
    } else {
        let prev = nonblank(items.drop_last());
        if is_blank(items.last()) { prev } else { prev.push(items.last()) }
    }
}

/// The message an items file without items is refused with.
pub open spec fn empty_items_file_message() -> Seq<char> {
    "`--items-file` held no items"@
}

/// The items of an items file, blank ones dropped; refused when none remain.
pub fn kept_items(parsed: Vec<String>) -> (r: Result<Vec<String>, Error>)
    ensures
        nonblank(parsed@.map_values(|s: String| s@)).len() == 0
            ==> (r matches Err(Error::Invalid(m)) && m@ == empty_items_file_message()),
        nonblank(parsed@.map_values(|s: String| s@)).len() > 0 ==> (r matches Ok(items)
            && items@.map_values(|s: String| s@) == nonblank(parsed@.map_values(|s: String| s@))),
{
    let ghost all = parsed@.map_values(|s: String| s@);
    let mut kept: Vec<String> = Vec::new();
    let mut i: usize = 0;
    while i < parsed.len()
        invariant
            i <= parsed.len(),
            all == parsed@.map_values(|s: String| s@),
            kept@.map_values(|s: String| s@) == nonblank(all.take(i as int)),
        decreases parsed.len() - i,
    {
        let cs = chars_of(parsed[i].as_str());
        if !blank(&cs) {
            kept.push(parsed[i].clone());
        }
        proof {
            assert(all.take(i + 1).drop_last() =~= all.take(i as int));
            assert(all.take(i + 1).last() == parsed@[i as int]@);
            assert(kept@.map_values(|s: String| s@) =~= nonblank(all.take(i + 1)));
        }
        i = i + 1;
    }
    assert(all.take(parsed.len() as int) =~= all);
    if kept.len() == 0 {
        return Err(Error::invalid("`--items-file` held no items"));
    }
    Ok(kept)
}

/// The message an items file that is not an array of strings is refused
/// with, quoting the parser.
pub open spec fn not_string_array_message(error: Seq<char>) -> Seq<char> {
    "`--items-file` must be a JSON array of strings: "@ + error + "."@
}

/// The items of an items file's text: a JSON array of strings, blank ones
/// dropped; refused when it is not such an array or no item remains.
pub fn items_of(raw: &str) -> (r: Result<Vec<String>, Error>)
    ensures
        match json_strings(raw@) {
            Err(e) => r matches Err(Error::Invalid(m)) && m@ == not_string_array_message(e),
            Ok(items) => if nonblank(items).len() == 0 {
                r matches Err(Error::Invalid(m)) && m@ == empty_items_file_message()
            } else {
                r matches Ok(kept) && texts(kept@) == nonblank(items)
            },
        },
{
    match parse_strings(raw) {
        Ok(parsed) => {
            assert(texts(parsed@) =~= parsed@.map_values(|s: String| s@));
            let r = kept_items(parsed);
            proof {
                if let Ok(kept) = &r {
                    assert(texts(kept@) =~= kept@.map_values(|s: String| s@));
                }
            }
            r
        },
        Err(e) => {
            let mut m = lit("`--items-file` must be a JSON array of strings: ");
            append_str(&mut m, e.as_str());
            append_str(&mut m, ".");
            Err(Error::Invalid(string_of(&m)))
        },
    }
}

/// The message empty standard input is refused with, or the items one per
/// line of `buffer`.
pub open spec fn lines_read(buffer: Seq<char>, r: Result<Vec<String>, Error>) -> bool {
    if is_blank(buffer) {
        r matches Err(Error::Invalid(m)) && m@ == empty_stdin_message()
    } else if line_items(buffer).len() == 0 {
        r matches Err(Error::Invalid(m)) && m@ == no_items_message()
    } else {
        r matches Ok(items) && texts(items@) == line_items(buffer)
    }
}

/// The items of text read from standard input: refused when it is blank,
/// otherwise one item per line, each trimmed, blank lines dropped.
pub fn stdin_lines(buffer: String) -> (r: Result<Vec<String>, Error>)
    ensures
        lines_read(buffer@, r),
{
    let ghost raw = buffer@;
    match require_text(buffer) {
        Err(e) => Err(e),
        Ok(text) => {
            let r = lines_of(text.as_str());
            proof {
                if let Ok(items) = &r {
                    assert(texts(items@) =~= items@.map_values(|s: String| s@));
                }
            }
            r
        },
    }
}

/// Where a question set comes from, and the flag it arrived on.
#[derive(Debug, Clone, PartialEq, Eq)]
pub enum QuestionSource {
    /// Inline JSON from `--questions` (`-` reads it from standard input).
    Inline(String),
    /// A file named by `--questions-file` (`-` is standard input).
    File(String),
}

impl QuestionSource {
    /// The flag this source arrived on, for messages.
    pub fn flag(&self) -> (r: &'static str)
        ensures
            r@ == match *self {
                QuestionSource::Inline(_) => "--questions"@,
                QuestionSource::File(_) => "--questions-file"@,
            },
    {
        match self {
            QuestionSource::Inline(_) => "--questions",
            QuestionSource::File(_) => "--questions-file",
        }
    }
}

/// The message giving both question flags is refused with.
pub open spec fn both_flags_message() -> Seq<char> {
    "pass either --questions or --questions-file, not both"@
}

/// Where the questions come from, or nothing if neither flag was given.
pub fn question_source(inline: Option<&str>, path: Option<&str>) -> (r: Result<Option<QuestionSource>, Error>)
    ensures
        match (inline, path) {
            (Some(_), Some(_)) => r matches Err(Error::Invalid(m)) && m@ == both_flags_message(),
            (Some(json), None) => r matches Ok(Some(QuestionSource::Inline(j))) && j@ == json@,
            (None, Some(file)) => r matches Ok(Some(QuestionSource::File(f))) && f@ == file@,
            (None, None) => r matches Ok(None),
        },
{
    match (inline, path) {
        (Some(_), Some(_)) => Err(Error::invalid("pass either --questions or --questions-file, not both")),
        (Some(json), None) => Ok(Some(QuestionSource::Inline(crate::text::owned(json)))),
        (None, Some(file)) => Ok(Some(QuestionSource::File(crate::text::owned(file)))),
        (None, None) => Ok(None),
    }
}

} // verus!

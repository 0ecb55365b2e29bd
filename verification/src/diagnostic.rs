//! The report of a raw value that matched neither shape.

use vstd::prelude::*;

verus! {

/// Why a raw value was read as neither shape: the name of each shape and the
/// detail with which it turned the value down, the success shape first.
#[derive(Debug, PartialEq, Eq)]
pub struct Diagnostic {
    pub success_name: String,
    pub success_detail: String,
    pub failure_name: String,
    pub failure_detail: String,
}

/// A `Diagnostic` as four sequences of characters.
pub struct DiagnosticView {
    pub success_name: Seq<char>,
    pub success_detail: Seq<char>,
    pub failure_name: Seq<char>,
    pub failure_detail: Seq<char>,
}

impl View for Diagnostic {
    type V = DiagnosticView;

    open spec fn view(&self) -> DiagnosticView {
        DiagnosticView {
            success_name: self.success_name@,
            success_detail: self.success_detail@,
            failure_name: self.failure_name@,
            failure_detail: self.failure_detail@,
        }
    }
}

/// The words that open the line of each shape.
pub open spec fn phrase() -> Seq<char> {
    "Failed to parse as "@
}

/// What stands between a shape's name and its detail.
pub open spec fn separator() -> Seq<char> {
    ": "@
}

/// The line break between the two shapes' lines.
pub open spec fn line_break() -> Seq<char> {
    "\n"@
}

/// One shape's line: the phrase, the shape's name, the separator, the detail.
pub open spec fn line_text(name: Seq<char>, detail: Seq<char>) -> Seq<char> {
    phrase() + name + separator() + detail
}

/// The whole message: the success shape's line, a line break, the error shape's line.
pub open spec fn message_text(d: DiagnosticView) -> Seq<char> {
    line_text(d.success_name, d.success_detail) + line_break() + line_text(
        d.failure_name,
        d.failure_detail,
    )
}

/// `part` stands in `text` from index `at` on.
pub open spec fn occurs_at(text: Seq<char>, part: Seq<char>, at: int) -> bool {
    &&& 0 <= at
    &&& at + part.len() <= text.len()
    &&& text.subrange(at, at + part.len()) == part
}

/// `part` stands somewhere in `text`.
pub open spec fn occurs_in(text: Seq<char>, part: Seq<char>) -> bool {
    exists|at: int| occurs_at(text, part, at)
}

/// Where a line's detail starts, counted from the start of the line.
pub open spec fn detail_at(name: Seq<char>) -> int {
    (phrase().len() + name.len() + separator().len()) as int
}

/// Where the error shape's line starts in the message.
pub open spec fn second_line_at(d: DiagnosticView) -> int {
    (line_text(d.success_name, d.success_detail).len() + line_break().len()) as int
}

impl Diagnostic {
    /// The message for a reader: one line for each shape, the success shape's first.
    pub fn message(&self) -> (text: String)
        ensures
            text@ == message_text(self@),
    {
        let mut text = String::from_str("Failed to parse as ");
        text.append(self.success_name.as_str());
        text.append(": ");
        text.append(self.success_detail.as_str());
        text.append("\n");
        text.append("Failed to parse as ");
        text.append(self.failure_name.as_str());
        text.append(": ");
        text.append(self.failure_detail.as_str());
        assert(text@ =~= message_text(self@));
        text
    }
}

/// The message names both shapes: each line opens with the phrase, the shape's
/// name follows it at once, and the detail closes the line; the success
/// shape's line starts the message and the error shape's line follows the
/// line break and ends the message.
pub proof fn lemma_message_names_both_shapes(d: DiagnosticView)
    ensures
        occurs_at(message_text(d), phrase(), 0),
        occurs_at(message_text(d), d.success_name, phrase().len() as int),
        occurs_at(message_text(d), d.success_detail, detail_at(d.success_name)),
        occurs_at(message_text(d), line_break(), second_line_at(d) - line_break().len()),
        occurs_at(message_text(d), phrase(), second_line_at(d)),
        occurs_at(message_text(d), d.failure_name, second_line_at(d) + phrase().len()),
        occurs_at(message_text(d), d.failure_detail, second_line_at(d) + detail_at(d.failure_name)),
        message_text(d).len() == second_line_at(d) + detail_at(d.failure_name)
            + d.failure_detail.len(),
        occurs_in(message_text(d), phrase()),
        occurs_in(message_text(d), d.success_name),
        occurs_in(message_text(d), d.success_detail),
        occurs_in(message_text(d), d.failure_name),
        occurs_in(message_text(d), d.failure_detail),
{
    let text = message_text(d);
    let p = phrase().len() as int;
    let b = line_break().len() as int;
    let k = second_line_at(d);
    let a1 = detail_at(d.success_name);
    let a2 = k + detail_at(d.failure_name);
    assert(text.subrange(0, p) =~= phrase());
    assert(text.subrange(p, p + d.success_name.len()) =~= d.success_name);
    assert(text.subrange(a1, a1 + d.success_detail.len()) =~= d.success_detail);
    assert(text.subrange(k - b, k) =~= line_break());
    assert(text.subrange(k, k + p) =~= phrase());
    assert(text.subrange(k + p, k + p + d.failure_name.len()) =~= d.failure_name);
    assert(text.subrange(a2, a2 + d.failure_detail.len()) =~= d.failure_detail);
    assert(occurs_at(text, phrase(), 0));
    assert(occurs_at(text, d.success_name, p));
    assert(occurs_at(text, d.success_detail, a1));
    assert(occurs_at(text, d.failure_name, k + p));
    assert(occurs_at(text, d.failure_detail, a2));
}

} // verus!

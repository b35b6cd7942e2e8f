use vstd::prelude::*;
use vstd::string::*;

verus! {

/// How a menu shows which of its entries is selected.
#[derive(Debug, Clone, Copy, PartialEq, Eq, Structural)]
pub enum MarkStyle {
    /// `> ` before the selected entry, two blanks before the others.
    Arrow,
    /// `[X] ` before the selected entry, `[ ] ` before the others.
    Checkbox,
}

impl MarkStyle {
    /// Whether `c` is one of the characters that markers of this style are
    /// made of.
    pub open spec fn marks(self, c: char) -> bool {
        match self {
            MarkStyle::Arrow => c == '>' || c == ' ',
            MarkStyle::Checkbox => c == '[' || c == 'X' || c == ']' || c == ' ',
        }
    }

    /// The marker of a selected entry, or of one that is not.
    pub open spec fn marker(self, selected: bool) -> Seq<char> {
        match self {
            MarkStyle::Arrow => if selected {
                seq!['>', ' ']
            } else {
                seq![' ', ' ']
            },
            MarkStyle::Checkbox => if selected {
                seq!['[', 'X', ']', ' ']
            } else {
                seq!['[', ' ', ']', ' ']
            },
        }
    }

    fn is_mark(self, c: char) -> (mark: bool)
        ensures
            mark == self.marks(c),
    {
        match self {
            MarkStyle::Arrow => c == '>' || c == ' ',
            MarkStyle::Checkbox => c == '[' || c == 'X' || c == ']' || c == ' ',
        }
    }
}

/// How many marker characters a text starts with.
pub open spec fn leading_marks(style: MarkStyle, text: Seq<char>) -> nat
    decreases text.len(),
{
    if text.len() > 0 && style.marks(text[0]) {
        1 + leading_marks(style, text.skip(1))
    } else {
        0
    }
}

/// An entry's text without the marker characters it starts with.
pub open spec fn bare_label(style: MarkStyle, text: Seq<char>) -> Seq<char> {
    text.skip(leading_marks(style, text) as int)
}

/// An entry's text with its marker set anew.
pub open spec fn spec_mark_entry(style: MarkStyle, text: Seq<char>, selected: bool) -> Seq<char> {
    style.marker(selected) + bare_label(style, text)
}

proof fn lemma_leading_marks(style: MarkStyle, text: Seq<char>, k: int)
    requires
        0 <= k <= text.len(),
        forall|i: int| 0 <= i < k ==> style.marks(text[i]),
        k < text.len() ==> !style.marks(text[k]),
    ensures
        leading_marks(style, text) == k,
    decreases k,
{
    if k > 0 {
        let rest = text.skip(1);
        assert forall|i: int| 0 <= i < k - 1 implies style.marks(rest[i]) by {
            assert(rest[i] == text[i + 1]);
        }
        lemma_leading_marks(style, rest, k - 1);
    }
}

proof fn lemma_bare_label(style: MarkStyle, text: Seq<char>)
    ensures
        leading_marks(style, text) <= text.len(),
        bare_label(style, text).len() > 0 ==> !style.marks(bare_label(style, text)[0]),
    decreases text.len(),
{
    if text.len() > 0 && style.marks(text[0]) {
        let rest = text.skip(1);
        lemma_bare_label(style, rest);
        assert(bare_label(style, text) =~= bare_label(style, rest));
    }
}

/// Marking an entry again only replaces its marker: whatever it was marked
/// as before, the entry reads as if it had been marked once.
pub proof fn lemma_mark_entry_again(style: MarkStyle, text: Seq<char>, first: bool, second: bool)
    ensures
        spec_mark_entry(style, spec_mark_entry(style, text, first), second) == spec_mark_entry(
            style,
            text,
            second,
        ),
{
    let marker = style.marker(first);
    let label = bare_label(style, text);
    let marked = marker + label;
    lemma_bare_label(style, text);
    assert forall|i: int| 0 <= i < marker.len() implies style.marks(marked[i]) by {
        assert(marked[i] == marker[i]);
    }
    if label.len() > 0 {
        assert(marked[marker.len() as int] == label[0]);
    }
    lemma_leading_marks(style, marked, marker.len() as int);
    assert(bare_label(style, marked) =~= label);
}

/// Sets the marker of a menu entry: whatever marker characters the text
/// starts with are dropped, and the marker for `selected` is put in front.
pub fn mark_entry(style: MarkStyle, text: &str, selected: bool) -> (marked: String)
    ensures
        marked@ == spec_mark_entry(style, text@, selected),
{
    let len = text.unicode_len();
    let mut k: usize = 0;
    while k < len && style.is_mark(text.get_char(k))
        invariant
            k <= len,
            len == text@.len(),
            forall|i: int| 0 <= i < k ==> style.marks(text@[i]),
        decreases len - k,
    {
        k = k + 1;
    }
    proof {
        lemma_leading_marks(style, text@, k as int);
    }
    let label = text.substring_char(k, len);
    let mut marked = String::new();
    match style {
        MarkStyle::Arrow => {
            marked.push(
                if selected {
                    '>'
                } else {
                    ' '
                },
            );
            marked.push(' ');
        },
        MarkStyle::Checkbox => {
            marked.push('[');
            marked.push(
                if selected {
                    'X'
                } else {
                    ' '
                },
            );
            marked.push(']');
            marked.push(' ');
        },
    }
    assert(marked@ =~= style.marker(selected));
    marked.append(label);
    assert(label@ =~= bare_label(style, text@));
    marked
}

} // verus!

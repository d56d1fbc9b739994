use vstd::prelude::*;

verus! {

/// The index of the first line feed in `s` at or after `i`, or the length of
/// `s` if there is none.
pub open spec fn line_end(s: Seq<char>, i: nat) -> nat
    decreases s.len() - i,
{
    if i >= s.len() || s[i as int] == '\n' {
        i
    } else {
        line_end(s, i + 1)
    }
}

/// The lines of a text: split at each line feed, a carriage return right
/// before a line feed dropped with it, and no line after a final line feed.
pub open spec fn lines_of(s: Seq<char>) -> Seq<Seq<char>>
    decreases s.len(),
{
    if s.len() == 0 {
        Seq::empty()
    } else {
        let e = line_end(s, 0);
        if e >= s.len() {
            seq![s]
        } else {
            let line = s.take(e as int);
            let line = if line.len() > 0 && line.last() == '\r' {
                line.drop_last()
            } else {
                line
            };
            seq![line] + lines_of(s.skip(e + 1 as int))
        }
    }
}

/// Relies on str::lines: splits at "\n" and "\r\n", drops the terminators,
/// yields no empty line after a final terminator, and keeps a bare "\r".
#[verifier::external_body]
fn split_lines(text: &str) -> (r: Vec<String>)
    ensures
        r@.map_values(|l: String| l@) == lines_of(text@),
{
    text.lines().map(String::from).collect()
}

/// The document: an ordered sequence of lines, fixed once loaded.
pub struct Buffer {
    pub lines: Vec<String>,
}

impl View for Buffer {
    type V = Seq<Seq<char>>;

    open spec fn view(&self) -> Seq<Seq<char>> {
        self.lines@.map_values(|l: String| l@)
    }
}

impl Default for Buffer {
    fn default() -> (r: Buffer)
        ensures
            r@.len() == 0,
    {
        Buffer { lines: Vec::new() }
    }
}

impl Buffer {
    /// The document whose text is `contents`.
    pub fn load(contents: &str) -> (r: Buffer)
        ensures
            r@ == lines_of(contents@),
    {
        Buffer { lines: split_lines(contents) }
    }

    /// Whether the document has no lines at all.
    pub fn is_empty(&self) -> (r: bool)
        ensures
            r == (self@.len() == 0),
    {
        self.lines.len() == 0
    }

    pub fn line_count(&self) -> (r: usize)
        ensures
            r == self@.len(),
    {
        self.lines.len()
    }
}

} // verus!

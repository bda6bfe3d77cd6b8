//! Reading the connection state out of the text that the network status
//! command prints: connected when some line names the provider, in any case,
//! and carries the exact marker `Connected`.

use vstd::prelude::*;
use crate::state::ConnectionState;

verus! {

/// The pieces of a text between its newlines: one more than it has newlines.
pub open spec fn newline_pieces(s: Seq<char>) -> Seq<Seq<char>>
    decreases s.len(),
{
    if s.len() == 0 {
        seq![Seq::empty()]
    } else {
        let rest = newline_pieces(s.drop_last());
        if s.last() == '\n' {
            rest.push(Seq::empty())
        } else {
            rest.update(rest.len() - 1, rest.last().push(s.last()))
        }
    }
}

pub open spec fn strip_cr(l: Seq<char>) -> Seq<char> {
    if l.len() > 0 && l.last() == '\r' {
        l.drop_last()
    } else {
        l
    }
}

/// The lines of a text, as `str::lines` splits it: at each `\n`, less one
/// `\r` just before it; a final newline ends the last line and starts none.
pub open spec fn lines_of(s: Seq<char>) -> Seq<Seq<char>> {
    let p = newline_pieces(s);
    let n = if p.last().len() == 0 {
        p.len() - 1
    } else {
        p.len() as int
    };
    Seq::new(
        n as nat,
        |i: int|
            if i < p.len() - 1 {
                strip_cr(p[i])
            } else {
                p[i]
            },
    )
}

/// The text in lower case, as `str::to_lowercase` gives it.
pub uninterp spec fn lower_of(s: Seq<char>) -> Seq<char>;

pub open spec fn has_substring(hay: Seq<char>, needle: Seq<char>) -> bool {
    exists|i: int|
        0 <= i && i + needle.len() <= hay.len() && #[trigger] hay.subrange(i, i + needle.len())
            == needle
}

/// A line shows the connection given the line and its lower-case form.
pub open spec fn shows_connection(line: Seq<char>, lowered: Seq<char>) -> bool {
    has_substring(lowered, "proton"@) && has_substring(line, "Connected"@)
}

pub open spec fn line_shows_connection(line: Seq<char>) -> bool {
    shows_connection(line, lower_of(line))
}

pub open spec fn lines_show_connection(lines: Seq<Seq<char>>) -> bool {
    exists|i: int| 0 <= i < lines.len() && line_shows_connection(#[trigger] lines[i])
}

pub open spec fn state_of_lines(lines: Seq<Seq<char>>) -> ConnectionState {
    if lines_show_connection(lines) {
        ConnectionState::Connected
    } else {
        ConnectionState::Disconnected
    }
}

/// The state that the status command's output shows.
pub open spec fn probed_state(output: Seq<char>) -> ConnectionState {
    state_of_lines(lines_of(output))
}

/// Relies on `str::lines`: the output split into its lines.
#[verifier::external_body]
fn split_lines(s: &str) -> (r: Vec<String>)
    ensures
        r@.len() == lines_of(s@).len(),
        forall|i: int| 0 <= i < r@.len() ==> #[trigger] r@[i]@ == lines_of(s@)[i],
{
    s.lines().map(|l| l.to_string()).collect()
}

/// Relies on `str::to_lowercase`: its result depends on the characters alone.
#[verifier::external_body]
fn lowercase(s: &str) -> (r: String)
    ensures
        r@ == lower_of(s@),
{
    s.to_lowercase()
}

fn occurs_at(hay: &str, needle: &str, at: usize) -> (r: bool)
    requires
        at + needle@.len() <= hay@.len() <= usize::MAX,
    ensures
        r == (hay@.subrange(at as int, at + needle@.len()) == needle@),
{
    let n = needle.unicode_len();
    let mut j: usize = 0;
    while j < n
        invariant
            j <= n,
            n == needle@.len(),
            at + n <= hay@.len() <= usize::MAX,
            forall|k: int| 0 <= k < j ==> hay@[at + k] == needle@[k],
        decreases n - j,
    {
        if hay.get_char(at + j) != needle.get_char(j) {
            assert(hay@.subrange(at as int, at + n)[j as int] != needle@[j as int]);
            return false;
        }
        j = j + 1;
    }
    assert(hay@.subrange(at as int, at + n) =~= needle@);
    true
}

/// Whether `needle` occurs in `hay` as a run of characters.
fn contains(hay: &str, needle: &str) -> (r: bool)
    ensures
        r == has_substring(hay@, needle@),
{
    let h = hay.unicode_len();
    let n = needle.unicode_len();
    if n > h {
        return false;
    }
    let mut i: usize = 0;
    loop
        invariant
            h == hay@.len(),
            n == needle@.len(),
            n <= h,
            i <= h - n,
            forall|k: int| 0 <= k < i ==> #[trigger] hay@.subrange(k, k + n) != needle@,
        decreases h - n - i,
    {
        if occurs_at(hay, needle, i) {
            assert(hay@.subrange(i as int, i + n) == needle@);
            return true;
        }
        if i == h - n {
            assert forall|k: int| 0 <= k && k + n <= h implies #[trigger] hay@.subrange(k, k + n)
                != needle@ by {
                assert(k <= i);
            }
            return false;
        }
        i = i + 1;
    }
}

/// Decides one line, given the line and its lower-case form.
pub fn shows_connection_lowered(line: &str, lowered: &str) -> (r: bool)
    ensures
        r == shows_connection(line@, lowered@),
{
    contains(lowered, "proton") && contains(line, "Connected")
}

pub fn line_indicates_connection(line: &str) -> (r: bool)
    ensures
        r == line_shows_connection(line@),
{
    let lowered = lowercase(line);
    shows_connection_lowered(line, lowered.as_str())
}

/// The state shown by lines that are already split.
pub fn state_from_lines(lines: &Vec<String>) -> (r: ConnectionState)
    ensures
        r == state_of_lines(lines@.map_values(|l: String| l@)),
{
    let ghost views = lines@.map_values(|l: String| l@);
    let mut i: usize = 0;
    while i < lines.len()
        invariant
            i <= lines@.len(),
            views == lines@.map_values(|l: String| l@),
            forall|j: int| 0 <= j < i ==> !line_shows_connection(#[trigger] views[j]),
        decreases lines@.len() - i,
    {
        if line_indicates_connection(lines[i].as_str()) {
            assert(line_shows_connection(views[i as int]));
            return ConnectionState::Connected;
        }
        i = i + 1;
    }
    ConnectionState::Disconnected
}

/// The state that the status command's output shows.
pub fn probe_state(output: &str) -> (r: ConnectionState)
    ensures
        r == probed_state(output@),
{
    let lines = split_lines(output);
    let r = state_from_lines(&lines);
    assert(lines@.map_values(|l: String| l@) =~= lines_of(output@));
    r
}

} // verus!

//! Small string utilities shared by the formatter and the output streams:
//! appending single characters, scanning for `%x` placeholders, and joining a
//! sequence of lines.

use vstd::prelude::*;
use vstd::string::*;

verus! {

/// Relies on `String::push`: appends exactly the given character at the end
/// of the string.
pub assume_specification[ String::push ](s: &mut String, ch: char)
    ensures
        final(s)@ == old(s)@.push(ch),
;

/// Whether the two-character placeholder `%p` occurs somewhere in `fmt`.
pub open spec fn has_placeholder(fmt: Seq<char>, p: char) -> bool {
    exists|i: int| 0 <= i && i + 1 < fmt.len() && #[trigger] fmt[i] == '%' && fmt[i + 1] == p
}

/// Scans the template for the two-character placeholder `%p`.
pub fn template_has_placeholder(fmt: &str, p: char) -> (r: bool)
    ensures
        r == has_placeholder(fmt@, p),
{
    let n = fmt.unicode_len();
    let mut i: usize = 0;
    while n - i > 1
        invariant
            n == fmt@.len(),
            i <= n,
            forall|j: int| 0 <= j < i ==> !(#[trigger] fmt@[j] == '%' && fmt@[j + 1] == p),
        decreases n - i,
    {
        if fmt.get_char(i) == '%' && fmt.get_char(i + 1) == p {
            assert(has_placeholder(fmt@, p)) by {
                assert(fmt@[i as int] == '%' && fmt@[i as int + 1] == p);
            }
            return true;
        }
        i = i + 1;
    }
    false
}

/// The concatenation of the lines of `lines` from position `i` on, in order.
pub open spec fn joined_from(lines: Seq<Seq<char>>, i: int) -> Seq<char>
    decreases lines.len() - i,
{
    if i < 0 || i >= lines.len() {
        Seq::empty()
    } else {
        lines[i] + joined_from(lines, i + 1)
    }
}

/// The concatenation of all the lines of `lines`, in order.
pub open spec fn joined(lines: Seq<Seq<char>>) -> Seq<char> {
    joined_from(lines, 0)
}

} // verus!

//! What the service answers to an upload request.

use vstd::prelude::*;
use vstd::string::StringExecFns;

verus! {

/// Status of an upload whose parts were all stored.
pub const STATUS_OK: u16 = 200;

/// Status of an upload whose credential is unknown.
pub const STATUS_FORBIDDEN: u16 = 403;

/// Status of an upload one of whose parts could not be stored.
pub const STATUS_FAILED: u16 = 500;

/// An HTTP status and a body of text.
#[derive(Debug)]
pub struct UploadResponse {
    pub status: u16,
    pub body: String,
}

impl View for UploadResponse {
    type V = (u16, Seq<char>);

    open spec fn view(&self) -> (u16, Seq<char>) {
        (self.status, self.body@)
    }
}

/// The views of a list of strings.
pub open spec fn lines_view(lines: Seq<String>) -> Seq<Seq<char>> {
    lines.map_values(|line: String| line@)
}

/// The lines one after the other, with a line feed between each two.
pub open spec fn joined(lines: Seq<Seq<char>>) -> Seq<char>
    decreases lines.len(),
{
    if lines.len() == 0 {
        Seq::empty()
    } else if lines.len() == 1 {
        lines[0]
    } else {
        joined(lines.drop_last()) + seq!['\n'] + lines.last()
    }
}

/// Whether `a` and `b` have as many lines, each as long in one as in the
/// other.
pub open spec fn same_lengths(a: Seq<Seq<char>>, b: Seq<Seq<char>>) -> bool {
    &&& a.len() == b.len()
    &&& forall|j: int| 0 <= j < a.len() ==> (#[trigger] a[j]).len() == b[j].len()
}

/// Lines of the same lengths join to texts of the same length.
pub proof fn joined_len(a: Seq<Seq<char>>, b: Seq<Seq<char>>)
    requires
        same_lengths(a, b),
    ensures
        joined(a).len() == joined(b).len(),
    decreases a.len(),
{
    if a.len() > 1 {
        assert(a.last().len() == b.last().len());
        assert(same_lengths(a.drop_last(), b.drop_last())) by {
            assert forall|j: int| 0 <= j < a.len() - 1 implies (#[trigger] a.drop_last()[j]).len()
                == b.drop_last()[j].len() by {
                assert(a[j].len() == b[j].len());
            }
        }
        joined_len(a.drop_last(), b.drop_last());
    } else if a.len() == 1 {
        assert(a[0].len() == b[0].len());
    }
}

/// Lines of the same lengths that differ in one line join to two different
/// texts.
pub proof fn joined_differs(a: Seq<Seq<char>>, b: Seq<Seq<char>>, i: int)
    requires
        same_lengths(a, b),
        0 <= i < a.len(),
        a[i] != b[i],
    ensures
        joined(a) != joined(b),
    decreases a.len(),
{
    if a.len() > 1 {
        let fa = a.drop_last();
        let fb = b.drop_last();
        assert(same_lengths(fa, fb)) by {
            assert forall|j: int| 0 <= j < fa.len() implies (#[trigger] fa[j]).len()
                == fb[j].len() by {
                assert(a[j].len() == b[j].len());
            }
        }
        joined_len(fa, fb);
        let n = joined(fa).len() as int;
        if joined(a) == joined(b) {
            assert(joined(a).take(n) == joined(fa));
            assert(joined(b).take(n) == joined(fb));
            assert(joined(a).skip(n + 1) == a.last());
            assert(joined(b).skip(n + 1) == b.last());
            if i < a.len() - 1 {
                assert(fa[i] != fb[i]);
                joined_differs(fa, fb, i);
            }
        }
    }
}

/// Joins `lines` with a line feed between each two.
pub fn join_lines(lines: &Vec<String>) -> (text: String)
    ensures
        text@ == joined(lines_view(lines@)),
{
    let ghost all = lines_view(lines@);
    let mut text = String::new();
    let mut i: usize = 0;
    while i < lines.len()
        invariant
            i <= lines.len(),
            all == lines_view(lines@),
            text@ == joined(all.take(i as int)),
        decreases lines.len() - i,
    {
        if i > 0 {
            text.push('\n');
        }
        text.append(lines[i].as_str());
        proof {
            let upto = all.take(i + 1);
            assert(upto.drop_last() == all.take(i as int));
        }
        i = i + 1;
    }
    assert(all.take(lines.len() as int) == all);
    text
}

impl UploadResponse {
    /// The answer to an upload with an unknown credential.
    pub fn forbidden() -> (r: Self)
        ensures
            r@ == (STATUS_FORBIDDEN, Seq::<char>::empty()),
    {
        UploadResponse { status: STATUS_FORBIDDEN, body: String::new() }
    }

    /// The answer to an upload one of whose parts could not be stored.
    pub fn failed() -> (r: Self)
        ensures
            r@ == (STATUS_FAILED, Seq::<char>::empty()),
    {
        UploadResponse { status: STATUS_FAILED, body: String::new() }
    }

    /// The answer to an upload whose parts were stored under `names`: the
    /// names, one per line.
    pub fn stored(names: &Vec<String>) -> (r: Self)
        ensures
            r@ == (STATUS_OK, joined(lines_view(names@))),
    {
        UploadResponse { status: STATUS_OK, body: join_lines(names) }
    }
}

} // verus!

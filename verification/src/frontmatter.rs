//! Split a document's leading frontmatter block from its body.
//!
//! A document may begin with a delimited block: an opening line that is
//! exactly `---`, the block's text, and a closing line that is exactly
//! `---`.  The split peels that block off and returns the rest; a
//! document that does not begin with such a block is returned whole.

use vstd::prelude::*;
use vstd::string::StrSliceExecFns;

verus! {

/// Error produced when a frontmatter block does not deserialize; carries
/// the deserializer's message.
#[derive(Debug, Clone)]
pub struct FrontmatterError(pub String);

impl FrontmatterError {
    /// The message this error displays as.
    pub fn message(&self) -> (s: String)
        ensures
            s@ == "Error while parsing frontmatter."@,
    {
        String::from_str("Error while parsing frontmatter.")
    }
}

/// Whether the closing fence `\n---\n` sits at offset `j` of `s`.
pub open spec fn fence_at(s: Seq<char>, j: int) -> bool {
    0 <= j && j + 5 <= s.len() && s.subrange(j, j + 5) == "\n---\n"@
}

/// The offset of the first closing fence at or after `j`, if any.
pub open spec fn first_fence_from(s: Seq<char>, j: int) -> Option<int>
    decreases s.len() - j when j <= s.len()
{
    if j + 5 > s.len() {
        None
    } else if fence_at(s, j) {
        Some(j)
    } else {
        first_fence_from(s, j + 1)
    }
}

/// What the split returns: the frontmatter text and the body when the
/// document opens with `---\n` and a closing fence follows, nothing
/// otherwise.
pub open spec fn frontmatter_split(s: Seq<char>) -> Option<(Seq<char>, Seq<char>)> {
    if s.len() >= 4 && s.subrange(0, 4) == "---\n"@ {
        let rest = s.skip(4);
        match first_fence_from(rest, 0) {
            Some(j) => Some((rest.take(j), rest.skip(j + 5))),
            None => None,
        }
    } else {
        None
    }
}

proof fn lemma_first_fence_none(s: Seq<char>, j: int)
    requires
        0 <= j <= s.len(),
        forall|j2: int| j <= j2 ==> !fence_at(s, j2),
    ensures
        first_fence_from(s, j) is None,
    decreases s.len() - j,
{
    if j + 5 > s.len() {
    } else {
        assert(!fence_at(s, j));
        lemma_first_fence_none(s, j + 1);
    }
}

proof fn lemma_first_fence_found(s: Seq<char>, lo: int, j: int)
    requires
        0 <= lo <= j,
        fence_at(s, j),
        forall|j2: int| lo <= j2 < j ==> !fence_at(s, j2),
    ensures
        first_fence_from(s, lo) == Some(j),
    decreases j - lo,
{
    if lo == j {
    } else {
        assert(!fence_at(s, lo));
        lemma_first_fence_found(s, lo + 1, j);
    }
}

/// Whether the closing fence sits at character offset `j` of `s`.
fn is_fence_at(s: &str, j: usize, n: usize) -> (b: bool)
    requires
        n == s@.len(),
        j + 5 <= n,
    ensures
        b == fence_at(s@, j as int),
{
    proof {
        reveal_strlit("\n---\n");
    }
    let b = s.get_char(j) == '\n' && s.get_char(j + 1) == '-' && s.get_char(j + 2) == '-'
        && s.get_char(j + 3) == '-' && s.get_char(j + 4) == '\n';
    proof {
        let sub = s@.subrange(j as int, j as int + 5);
        assert(sub[0] == s@[j as int]);
        assert(sub[1] == s@[j as int + 1]);
        assert(sub[2] == s@[j as int + 2]);
        assert(sub[3] == s@[j as int + 3]);
        assert(sub[4] == s@[j as int + 4]);
        if b {
            assert(sub =~= "\n---\n"@);
        } else if sub == "\n---\n"@ {
            assert(sub[0] == '\n');
            assert(sub[1] == '-');
            assert(sub[2] == '-');
            assert(sub[3] == '-');
            assert(sub[4] == '\n');
        }
    }
    b
}

/// Split off the frontmatter string, if any.
///
/// The document opens a frontmatter block only with a first line that is
/// exactly `---`; the block runs to the next line that is exactly `---`,
/// and the body is everything after that line.  Without both delimiters
/// the whole document is the body.
pub fn split_frontmatter<'a>(source: &'a str) -> (r: (Option<&'a str>, &'a str))
    ensures
        match frontmatter_split(source@) {
            Some((fm, body)) => r.0 matches Some(f) && f@ == fm && r.1@ == body,
            None => r.0 is None && r.1@ == source@,
        },
{
    proof {
        reveal_strlit("---\n");
    }
    let n = source.unicode_len();
    if n < 4 {
        return (None, source);
    }
    let opens = source.get_char(0) == '-' && source.get_char(1) == '-' && source.get_char(2)
        == '-' && source.get_char(3) == '\n';
    proof {
        let pre = source@.subrange(0, 4);
        assert(pre[0] == source@[0]);
        assert(pre[1] == source@[1]);
        assert(pre[2] == source@[2]);
        assert(pre[3] == source@[3]);
        if opens {
            assert(pre =~= "---\n"@);
        } else if pre == "---\n"@ {
            assert(pre[0] == '-');
            assert(pre[1] == '-');
            assert(pre[2] == '-');
            assert(pre[3] == '\n');
        }
    }
    if !opens {
        return (None, source);
    }
    let rest = source.substring_char(4, n);
    let rest_n = n - 4;
    proof {
        assert(rest@ =~= source@.skip(4));
        assert(rest@.len() == rest_n);
    }
    let mut j: usize = 0;
    while rest_n - j >= 5
        invariant
            j <= rest_n,
            rest_n == rest@.len(),
            source@.len() >= 4,
            source@.subrange(0, 4) == "---\n"@,
            rest@ == source@.skip(4),
            forall|j2: int| 0 <= j2 < j ==> !fence_at(rest@, j2),
        decreases rest_n - j,
    {
        if is_fence_at(rest, j, rest_n) {
            proof {
                lemma_first_fence_found(rest@, 0, j as int);
            }
            let fm = rest.substring_char(0, j);
            let body = rest.substring_char(j + 5, rest_n);
            proof {
                assert(fm@ =~= rest@.take(j as int));
                assert(body@ =~= rest@.skip(j as int + 5));
            }
            return (Some(fm), body);
        }
        j = j + 1;
    }
    proof {
        assert(forall|j2: int| j <= j2 ==> !fence_at(rest@, j2));
        lemma_first_fence_none(rest@, 0);
    }
    (None, source)
}

} // verus!

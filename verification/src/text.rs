//! Text handling for delivered lines: stripping the delimiter off a raw
//! line, and naming worker threads after the file they chase.

use vstd::prelude::*;

verus! {

/// `s` with every trailing newline removed: the text of a delivered record,
/// as a function of the raw line read from the file.
pub open spec fn trim_newlines(s: Seq<char>) -> Seq<char>
    decreases s.len(),
{
    if s.len() > 0 && s.last() == '\n' {
        trim_newlines(s.drop_last())
    } else {
        s
    }
}

/// Strips the trailing newline delimiter (and any newlines stacked at the
/// end) off a raw line, leaving the text that is handed to the consumer.
pub fn trim_trailing_newlines(s: &str) -> (r: String)
    ensures
        r@ == trim_newlines(s@),
{
    let len: usize = s.unicode_len();
    let mut keep: usize = len;
    proof {
        assert(s@.take(len as int) =~= s@);
    }
    while keep > 0 && s.get_char(keep - 1) == '\n'
        invariant
            keep <= len,
            len == s@.len(),
            trim_newlines(s@) == trim_newlines(s@.take(keep as int)),
        decreases keep,
    {
        proof {
            assert(s@.take(keep as int).last() == '\n');
            assert(s@.take(keep as int).drop_last() =~= s@.take(keep as int - 1));
        }
        keep = keep - 1;
    }
    proof {
        assert(trim_newlines(s@.take(keep as int)) == s@.take(keep as int));
        assert(s@.subrange(0, keep as int) =~= s@.take(keep as int));
    }
    let kept: &str = s.substring_char(0, keep);
    kept.to_owned()
}

/// The name given to a worker thread that chases the file at `path`.
pub fn thread_namer(path: &str) -> (name: String)
    ensures
        name@ == "chase-thread-"@ + path@,
{
    let mut name: String = String::from_str("chase-thread-");
    name.append(path);
    name
}

} // verus!

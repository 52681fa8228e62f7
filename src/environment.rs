//! Environment entries of the form `KEY=VALUE`.

use vstd::prelude::*;

verus! {

/// The split of `entry` at its first `=`, when that `=` exists and the key
/// before it is not empty.
pub open spec fn spec_split_env(entry: Seq<char>) -> Option<(Seq<char>, Seq<char>)> {
    if exists|i: int| 0 < i < entry.len() && entry[i] == '=' && !entry.take(i).contains('=') {
        let i = choose|i: int| 0 < i < entry.len() && entry[i] == '=' && !entry.take(i).contains('=');
        Some((entry.take(i), entry.skip(i + 1)))
    } else {
        None
    }
}

/// Split `KEY=VALUE` at the first `=`. `None` when there is no `=` or the key
/// is empty.
pub fn split_env_entry(entry: &str) -> (r: Option<(String, String)>)
    ensures
        match r {
            Some((k, v)) => spec_split_env(entry@) == Some((k@, v@)),
            None => spec_split_env(entry@) is None,
        },
        r is Some <==> (entry@.contains('=') && entry@[0] != '='),
{
    let n = entry.unicode_len();
    let mut i: usize = 0;
    while i < n
        invariant
            n == entry@.len(),
            i <= n,
            !entry@.take(i as int).contains('='),
        decreases n - i,
    {
        if entry.get_char(i) == '=' {
            if i == 0 {
                proof {
                    assert forall|j: int| 0 < j < entry@.len() && entry@[j] == '=' implies entry@.take(j).contains('=') by {
                        assert(entry@.take(j)[0] == '=');
                    }
                    assert(entry@.contains('=')) by { assert(entry@[0] == '='); }
                }
                return None;
            }
            let key = entry.substring_char(0, i);
            let value = entry.substring_char(i + 1, n);
            proof {
                let ii = i as int;
                assert(0 < ii < entry@.len() && entry@[ii] == '=' && !entry@.take(ii).contains('='));
                let c = choose|j: int| 0 < j < entry@.len() && entry@[j] == '=' && !entry@.take(j).contains('=');
                if c < ii {
                    assert(entry@.take(ii)[c] == '=');
                } else if c > ii {
                    assert(entry@.take(c)[ii] == '=');
                }
                assert(entry@.take(ii) =~= entry@.subrange(0, ii));
                assert(entry@.skip(ii + 1) =~= entry@.subrange(ii + 1, n as int));
                assert(entry@.contains('='));
                assert(entry@.take(ii)[0] == entry@[0]);
            }
            return Some((key.to_owned(), value.to_owned()));
        }
        proof {
            assert(entry@.take(i + 1) =~= entry@.take(i as int).push(entry@[i as int]));
        }
        i = i + 1;
    }
    proof {
        assert(entry@.take(n as int) =~= entry@);
        assert(!entry@.contains('='));
        assert forall|j: int| 0 < j < entry@.len() implies entry@[j] != '=' by {
            assert(entry@.take(n as int)[j] == entry@[j]);
        }
    }
    None
}

} // verus!

//! Shortcut-token matcher: detects a `/name` token ending exactly at the
//! buffer's tail.

use vstd::prelude::*;

use crate::host::string_from_chars;

verus! {

/// Characters allowed after the `/` of a shortcut token: letters, digits,
/// `_`, `-` and `.`.
pub open spec fn is_token_char(c: char) -> bool {
    ||| 48 <= c as u32 <= 57
    ||| 65 <= c as u32 <= 90
    ||| 97 <= c as u32 <= 122
    ||| c == '_'
    ||| c == '-'
    ||| c == '.'
}

/// A shortcut token fills the tail of `s` from position `i`: a `/` followed
/// by one or more token characters reaching exactly to the end.
pub open spec fn token_at_tail(s: Seq<char>, i: int) -> bool {
    &&& 0 <= i < s.len() - 1
    &&& s[i] == '/'
    &&& forall|j: int| i < j < s.len() ==> is_token_char(s[j])
}

/// Some shortcut token ends exactly at the tail of `s`.
pub open spec fn has_trailing_token(s: Seq<char>) -> bool {
    exists|i: int| token_at_tail(s, i)
}

/// The tail position of a token is unique: `/` is not a token character, so
/// only the most recent `/` can open one.
pub proof fn lemma_token_at_tail_unique(s: Seq<char>, i: int, j: int)
    requires
        token_at_tail(s, i),
        token_at_tail(s, j),
    ensures
        i == j,
{
    if i < j {
        assert(is_token_char(s[j]));
        assert(s[j] == '/');
    }
    if j < i {
        assert(is_token_char(s[i]));
        assert(s[i] == '/');
    }
}

/// The position where the trailing token starts; meaningful only when
/// `has_trailing_token` holds, and then unique.
pub open spec fn token_tail_start(s: Seq<char>) -> int {
    choose|i: int| token_at_tail(s, i)
}

/// The trailing token itself: the tail of `s` from the most recent `/`.
pub open spec fn trailing_token_spec(s: Seq<char>) -> Seq<char> {
    s.skip(token_tail_start(s))
}

fn token_char(c: char) -> (r: bool)
    ensures
        r == is_token_char(c),
{
    let u = c as u32;
    (48 <= u && u <= 57) || (65 <= u && u <= 90) || (97 <= u && u <= 122) || c == '_' || c == '-'
        || c == '.'
}

/// The longest shortcut token ending exactly at the buffer's tail, slash
/// included, or none when the tail is no token.
pub fn trailing_token(buf: &Vec<char>) -> (r: Option<String>)
    ensures
        match r {
            Some(t) => {
                &&& t@.len() >= 2
                &&& t@.len() <= buf@.len()
                &&& has_trailing_token(buf@)
                &&& token_at_tail(buf@, buf@.len() - t@.len())
                &&& t@ == trailing_token_spec(buf@)
            },
            None => !has_trailing_token(buf@),
        },
{
    let n = buf.len();
    let mut k = n;
    while k > 0 && token_char(buf[k - 1])
        invariant
            0 <= k <= n,
            n == buf@.len(),
            forall|j: int| k <= j < n ==> is_token_char(buf@[j]),
        decreases k,
    {
        k -= 1;
    }
    if k > 0 && k < n && buf[k - 1] == '/' {
        let mut t: Vec<char> = Vec::new();
        let mut j = k - 1;
        while j < n
            invariant
                1 <= k < n,
                k - 1 <= j <= n,
                n == buf@.len(),
                t@ == buf@.subrange(k - 1, j as int),
            decreases n - j,
        {
            t.push(buf[j]);
            proof {
                assert(t@ =~= buf@.subrange(k - 1, j + 1));
            }
            j += 1;
        }
        proof {
            assert(buf@.subrange(k - 1, n as int) =~= buf@.skip(k - 1));
            assert(token_at_tail(buf@, k - 1));
            assert(has_trailing_token(buf@));
            assert(token_at_tail(buf@, token_tail_start(buf@)));
            lemma_token_at_tail_unique(buf@, token_tail_start(buf@), k - 1);
        }
        Some(string_from_chars(&t))
    } else {
        proof {
            if has_trailing_token(buf@) {
                let i = choose|i: int| token_at_tail(buf@, i);
                if k == 0 {
                    assert(is_token_char(buf@[i]));
                } else {
                    if i >= k {
                        assert(is_token_char(buf@[i]));
                    } else if i <= k - 2 {
                        assert(is_token_char(buf@[k - 1]));
                    } else {
                        // i == k - 1: the exec test rejected this position,
                        // so either the slash is missing or nothing follows.
                        assert(buf@[k - 1] == '/');
                        assert(k < n);
                    }
                }
            }
        }
        None
    }
}

} // verus!

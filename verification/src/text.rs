//! Character-level text utilities: whitespace classification, trimming,
//! equality and whitespace-delimited tokenization, specified over `Seq<char>`.

use vstd::prelude::*;
use vstd::string::StrSliceExecFns;

verus! {

/// A character with the Unicode `White_Space` property: the set that line
/// trimming removes and that separates tokens.
pub open spec fn is_space(c: char) -> bool {
    let u = c as u32;
    ||| (9 <= u && u <= 13)
    ||| u == 32
    ||| u == 0x85
    ||| u == 0xA0
    ||| u == 0x1680
    ||| (0x2000 <= u && u <= 0x200A)
    ||| u == 0x2028
    ||| u == 0x2029
    ||| u == 0x202F
    ||| u == 0x205F
    ||| u == 0x3000
}

/// Runtime test for [`is_space`].
pub fn is_space_char(c: char) -> (r: bool)
    ensures
        r == is_space(c),
{
    let u = c as u32;
    (9 <= u && u <= 13) || u == 32 || u == 0x85 || u == 0xA0 || u == 0x1680 || (0x2000 <= u
        && u <= 0x200A) || u == 0x2028 || u == 0x2029 || u == 0x202F || u == 0x205F || u == 0x3000
}

/// `s` with its leading whitespace removed.
pub open spec fn trim_front(s: Seq<char>) -> Seq<char>
    decreases s.len(),
{
    if s.len() > 0 && is_space(s[0]) {
        trim_front(s.drop_first())
    } else {
        s
    }
}

/// `s` with its trailing whitespace removed.
pub open spec fn trim_back(s: Seq<char>) -> Seq<char>
    decreases s.len(),
{
    if s.len() > 0 && is_space(s.last()) {
        trim_back(s.drop_last())
    } else {
        s
    }
}

/// `s` with both leading and trailing whitespace removed.
pub open spec fn trim_spec(s: Seq<char>) -> Seq<char> {
    trim_back(trim_front(s))
}

/// Removes leading and trailing whitespace, exactly as [`trim_spec`] says.
pub fn trim(s: &str) -> (r: &str)
    ensures
        r@ == trim_spec(s@),
{
    let n = s.unicode_len();
    proof {
        assert(s@.subrange(0, n as int) =~= s@);
    }
    let mut a: usize = 0;
    while a < n
        invariant_except_break
            n == s@.len(),
            a <= n,
            trim_front(s@) == trim_front(s@.subrange(a as int, n as int)),
        ensures
            n == s@.len(),
            a <= n,
            trim_front(s@) == s@.subrange(a as int, n as int),
        decreases n - a,
    {
        let c = s.get_char(a);
        if is_space_char(c) {
            proof {
                assert(s@.subrange(a as int, n as int).drop_first() =~= s@.subrange(
                    a as int + 1,
                    n as int,
                ));
            }
            a = a + 1;
        } else {
            break ;
        }
    }
    let mut b: usize = n;
    while b > a
        invariant_except_break
            n == s@.len(),
            a <= b <= n,
            trim_back(s@.subrange(a as int, n as int)) == trim_back(s@.subrange(a as int, b as int)),
        ensures
            a <= b <= n,
            n == s@.len(),
            trim_back(s@.subrange(a as int, n as int)) == s@.subrange(a as int, b as int),
        decreases b,
    {
        let c = s.get_char(b - 1);
        if is_space_char(c) {
            proof {
                assert(s@.subrange(a as int, b as int).drop_last() =~= s@.subrange(
                    a as int,
                    b as int - 1,
                ));
            }
            b = b - 1;
        } else {
            break ;
        }
    }
    s.substring_char(a, b)
}

/// Character-by-character string equality, tied to view equality.
pub fn str_eq(a: &str, b: &str) -> (r: bool)
    ensures
        r == (a@ == b@),
{
    let n = a.unicode_len();
    let m = b.unicode_len();
    if n != m {
        return false;
    }
    let mut i: usize = 0;
    while i < n
        invariant
            i <= n,
            n == a@.len(),
            n == b@.len(),
            forall|j: int| 0 <= j < i ==> a@[j] == b@[j],
        decreases n - i,
    {
        if a.get_char(i) != b.get_char(i) {
            return false;
        }
        i = i + 1;
    }
    proof {
        assert(a@ =~= b@);
    }
    true
}

/// The whitespace-delimited tokens of `s`, given a word `cur` read so far.
pub open spec fn tokens_acc(s: Seq<char>, cur: Seq<char>) -> Seq<Seq<char>>
    decreases s.len(),
{
    if s.len() == 0 {
        if cur.len() > 0 {
            seq![cur]
        } else {
            Seq::empty()
        }
    } else if is_space(s[0]) {
        if cur.len() > 0 {
            seq![cur] + tokens_acc(s.drop_first(), Seq::empty())
        } else {
            tokens_acc(s.drop_first(), Seq::empty())
        }
    } else {
        tokens_acc(s.drop_first(), cur.push(s[0]))
    }
}

/// The whitespace-delimited tokens of `s`, in order, without empty tokens.
pub open spec fn tokens(s: Seq<char>) -> Seq<Seq<char>> {
    tokens_acc(s, Seq::empty())
}

/// Consuming one whole word from the front of `t` emits one token.
proof fn lemma_tokens_acc_word(t: Seq<char>, k: int, cur: Seq<char>)
    requires
        0 <= k <= t.len(),
        forall|j: int| 0 <= j < k ==> !is_space(t[j]),
        k == t.len() || is_space(t[k]),
        cur.len() + k > 0,
    ensures
        tokens_acc(t, cur) == seq![cur + t.take(k)] + tokens_acc(t.skip(k), Seq::empty()),
    decreases k,
{
    if k == 0 {
        assert(cur + t.take(0) =~= cur);
        assert(t.skip(0) =~= t);
    } else {
        assert(!is_space(t[0]));
        let t1 = t.drop_first();
        let cur1 = cur.push(t[0]);
        assert(forall|j: int| 0 <= j < k - 1 ==> !is_space(t1[j]));
        lemma_tokens_acc_word(t1, k - 1, cur1);
        assert(cur1 + t1.take(k - 1) =~= cur + t.take(k));
        assert(t1.skip(k - 1) =~= t.skip(k));
    }
}

/// Splits `s` at whitespace, exactly as [`tokens`] says.
pub fn token_list(s: &str) -> (r: Vec<String>)
    ensures
        r.deep_view() == tokens(s@),
{
    let n = s.unicode_len();
    let mut toks: Vec<String> = Vec::new();
    proof {
        assert(s@.subrange(0, n as int) =~= s@);
        assert(toks.deep_view() + tokens(s@) =~= tokens(s@));
    }
    let mut i: usize = 0;
    while i < n
        invariant
            i <= n,
            n == s@.len(),
            tokens(s@) == toks.deep_view() + tokens_acc(
                s@.subrange(i as int, n as int),
                Seq::empty(),
            ),
        decreases n - i,
    {
        let c = s.get_char(i);
        if is_space_char(c) {
            proof {
                assert(s@.subrange(i as int, n as int).drop_first() =~= s@.subrange(
                    i as int + 1,
                    n as int,
                ));
            }
            i = i + 1;
        } else {
            let mut j: usize = i + 1;
            while j < n
                invariant_except_break
                    i < j <= n,
                    n == s@.len(),
                    forall|p: int| i <= p < j ==> !is_space(s@[p]),
                ensures
                    i < j <= n,
                    n == s@.len(),
                    forall|p: int| i <= p < j ==> !is_space(s@[p]),
                    j == n || is_space(s@[j as int]),
                decreases n - j,
            {
                let d = s.get_char(j);
                if is_space_char(d) {
                    break ;
                }
                j = j + 1;
            }
            let word = s.substring_char(i, j).to_owned();
            let ghost old_dv = toks.deep_view();
            toks.push(word);
            proof {
                let t = s@.subrange(i as int, n as int);
                let k = j - i;
                assert(forall|p: int| 0 <= p < k ==> !is_space(t[p]));
                lemma_tokens_acc_word(t, k, Seq::empty());
                assert(Seq::<char>::empty() + t.take(k) =~= s@.subrange(i as int, j as int));
                assert(t.skip(k) =~= s@.subrange(j as int, n as int));
                assert(toks.deep_view() =~= old_dv + seq![word@]);
                assert(toks.deep_view() + tokens_acc(s@.subrange(j as int, n as int), Seq::empty())
                    =~= old_dv + tokens_acc(s@.subrange(i as int, n as int), Seq::empty()));
            }
            i = j;
        }
    }
    proof {
        assert(tokens(s@) =~= toks.deep_view());
    }
    toks
}

} // verus!

//! Small text helpers shared by the services.
use vstd::prelude::*;

verus! {

/// `first` followed by `second`.
pub fn join2(first: &str, second: &str) -> (res: String)
    ensures
        res@ == first@ + second@,
{
    let mut res = first.to_string();
    res.append(second);
    res
}

/// `first`, then `second`, then `third`.
pub fn join3(first: &str, second: &str, third: &str) -> (res: String)
    ensures
        res@ == first@ + second@ + third@,
{
    let mut res = first.to_string();
    res.append(second);
    res.append(third);
    res
}

/// The text with every leading `/` removed.
pub open spec fn trim_leading_slashes(s: Seq<char>) -> Seq<char>
    decreases s.len(),
{
    if s.len() > 0 && s[0] == '/' {
        trim_leading_slashes(s.drop_first())
    } else {
        s
    }
}

/// Removes every leading `/`, as `str::trim_start_matches('/')` does.
pub fn trim_start_slashes(s: &str) -> (res: String)
    ensures
        res@ == trim_leading_slashes(s@),
{
    let n = s.unicode_len();
    let mut i: usize = 0;
    assert(s@.skip(0) =~= s@);
    while i < n && s.get_char(i) == '/'
        invariant
            n == s@.len(),
            i <= n,
            trim_leading_slashes(s@) == trim_leading_slashes(s@.skip(i as int)),
        decreases n - i,
    {
        assert(s@.skip(i as int).drop_first() =~= s@.skip(i + 1));
        i = i + 1;
    }
    let rest = s.substring_char(i, n);
    assert(rest@ =~= s@.skip(i as int));
    rest.to_string()
}

/// Trimming leaves no leading slash, keeps a suffix of the text, removes
/// only slashes, and trimming twice is trimming once.
pub proof fn law_trim_leading_slashes(s: Seq<char>)
    ensures
        trim_leading_slashes(s).len() <= s.len(),
        forall|j: int| 0 <= j < s.len() - trim_leading_slashes(s).len() ==> #[trigger] s[j] == '/',
        trim_leading_slashes(s).len() == 0 || trim_leading_slashes(s)[0] != '/',
        trim_leading_slashes(s) == s.skip(s.len() - trim_leading_slashes(s).len()),
        trim_leading_slashes(trim_leading_slashes(s)) == trim_leading_slashes(s),
    decreases s.len(),
{
    if s.len() > 0 && s[0] == '/' {
        law_trim_leading_slashes(s.drop_first());
        let t = trim_leading_slashes(s.drop_first());
        assert(s.drop_first().skip(s.drop_first().len() - t.len()) =~= s.skip(s.len() - t.len()));
        assert forall|j: int| 0 <= j < s.len() - t.len() implies #[trigger] s[j] == '/' by {
            if j > 0 {
                assert(s[j] == s.drop_first()[j - 1]);
            }
        }
    } else {
        assert(s.skip(0) =~= s);
    }
}

/// Trimming gives the one text that is left once the leading slashes are
/// gone: any `rest` that follows a run of slashes in `s` and does not start
/// with a slash is the trimmed text.
pub proof fn law_trim_unique(s: Seq<char>, slashes: nat, rest: Seq<char>)
    requires
        slashes + rest.len() == s.len(),
        forall|j: int| 0 <= j < slashes ==> #[trigger] s[j] == '/',
        forall|j: int| 0 <= j < rest.len() ==> #[trigger] rest[j] == s[slashes + j],
        rest.len() == 0 || rest[0] != '/',
    ensures
        trim_leading_slashes(s) == rest,
    decreases s.len(),
{
    if slashes == 0 {
        assert(rest =~= s);
        if s.len() > 0 {
            assert(s[0] == rest[0]);
        }
    } else {
        let t = s.drop_first();
        assert forall|j: int| 0 <= j < rest.len() implies #[trigger] rest[j] == t[(slashes - 1) + j] by {
            assert(t[(slashes - 1) + j] == s[slashes + j]);
        }
        assert forall|j: int| 0 <= j < (slashes - 1) as nat implies #[trigger] t[j] == '/' by {
            assert(t[j] == s[j + 1]);
        }
        law_trim_unique(t, (slashes - 1) as nat, rest);
    }
}

} // verus!

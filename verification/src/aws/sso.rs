//! SSO sessions: the session name derived from a start URL, the SSO
//! configuration, and the accounts an SSO login can reach.
use crate::text::{
    chars_less, chars_of, lemma_seq_less_total, lemma_seq_less_transitive, owned, seq_less,
    string_from_chars,
};
use vstd::prelude::*;

verus! {

broadcast use vstd::seq_lib::group_to_multiset_ensures;

// ---------------------------------------------------------------------------
// Session names
// ---------------------------------------------------------------------------

/// The scheme prefix `https://` that a start URL usually carries.
pub open spec fn https_scheme() -> Seq<char> {
    seq!['h', 't', 't', 'p', 's', ':', '/', '/']
}

/// `s` with every occurrence of `pat` removed, scanning left to right without
/// overlaps, as `str::replace(pat, "")` gives it.
pub open spec fn remove_all(s: Seq<char>, pat: Seq<char>) -> Seq<char>
    decreases s.len(),
{
    if pat.len() == 0 || s.len() < pat.len() {
        s
    } else if s.subrange(0, pat.len() as int) == pat {
        remove_all(s.skip(pat.len() as int), pat)
    } else {
        seq![s[0]] + remove_all(s.drop_first(), pat)
    }
}

/// The part of `s` before the first `c`, as the first half of
/// `str::split_once(c)` gives it; all of `s` when it holds no `c`.
pub open spec fn prefix_before(s: Seq<char>, c: char) -> Seq<char>
    decreases s.len(),
{
    if s.len() == 0 {
        s
    } else if s[0] == c {
        Seq::empty()
    } else {
        seq![s[0]] + prefix_before(s.drop_first(), c)
    }
}

/// The SSO session name of a start URL: `sso-` and the URL's first host label,
/// read after every `https://` is removed.
pub open spec fn session_name_spec(start_url: Seq<char>) -> Seq<char> {
    seq!['s', 's', 'o', '-'] + prefix_before(remove_all(start_url, https_scheme()), '.')
}

proof fn lemma_remove_all_keeps_dot(s: Seq<char>)
    ensures
        remove_all(s, https_scheme()).contains('.') == s.contains('.'),
    decreases s.len(),
{
    let p = https_scheme();
    if s.len() < p.len() {
    } else if s.subrange(0, p.len() as int) == p {
        lemma_remove_all_keeps_dot(s.skip(p.len() as int));
        assert(s =~= s.subrange(0, p.len() as int) + s.skip(p.len() as int));
        if s.contains('.') {
            let i = choose|i: int| 0 <= i < s.len() && s[i] == '.';
            if i < p.len() {
                assert(s.subrange(0, p.len() as int)[i] == '.');
            } else {
                assert(s.skip(p.len() as int)[i - p.len()] == '.');
            }
        }
        if s.skip(p.len() as int).contains('.') {
            let i = choose|i: int|
                0 <= i < s.skip(p.len() as int).len() && s.skip(p.len() as int)[i] == '.';
            assert(s[i + p.len()] == '.');
        }
    } else {
        lemma_remove_all_keeps_dot(s.drop_first());
        let r = remove_all(s.drop_first(), p);
        assert(remove_all(s, p) == seq![s[0]] + r);
        if s.contains('.') {
            let i = choose|i: int| 0 <= i < s.len() && s[i] == '.';
            if i == 0 {
                assert((seq![s[0]] + r)[0] == '.');
            } else {
                assert(s.drop_first()[i - 1] == '.');
                let j = choose|j: int| 0 <= j < r.len() && r[j] == '.';
                assert((seq![s[0]] + r)[j + 1] == '.');
            }
        }
        if remove_all(s, p).contains('.') {
            let i = choose|i: int| 0 <= i < remove_all(s, p).len() && remove_all(s, p)[i] == '.';
            if i == 0 {
                assert(s[0] == '.');
            } else {
                assert(r[i - 1] == '.');
                let j = choose|j: int| 0 <= j < s.drop_first().len() && s.drop_first()[j] == '.';
                assert(s[j + 1] == '.');
            }
        }
    }
}

fn scheme_chars() -> (v: Vec<char>)
    ensures
        v@ == https_scheme(),
{
    let v: Vec<char> = vec!['h', 't', 't', 'p', 's', ':', '/', '/'];
    assert(v@ =~= https_scheme());
    v
}

fn remove_all_chars(s: &Vec<char>, pat: &Vec<char>) -> (r: Vec<char>)
    requires
        pat@.len() > 0,
    ensures
        r@ == remove_all(s@, pat@),
{
    let n = s.len();
    let mut out: Vec<char> = Vec::new();
    let mut i: usize = 0;
    assert(s@.skip(0) =~= s@);
    while i < n
        invariant
            n == s@.len(),
            pat@.len() > 0,
            i <= n,
            out@ + remove_all(s@.skip(i as int), pat@) == remove_all(s@, pat@),
        decreases n - i,
    {
        let ghost t = s@.skip(i as int);
        if crate::text::occurs_at_exec(s, pat, i) {
            assert(t.subrange(0, pat@.len() as int) =~= s@.subrange(i as int, i + pat@.len()));
            assert(t.skip(pat@.len() as int) =~= s@.skip(i + pat@.len()));
            i = i + pat.len();
        } else {
            proof {
                if t.len() >= pat@.len() {
                    assert(t.subrange(0, pat@.len() as int) =~= s@.subrange(
                        i as int,
                        i + pat@.len(),
                    ));
                    assert(t.drop_first() =~= s@.skip(i + 1));
                    assert(remove_all(t, pat@) == seq![t[0]] + remove_all(t.drop_first(), pat@));
                } else {
                    assert(s@.skip(i + 1).len() < pat@.len());
                    assert(t =~= seq![t[0]] + s@.skip(i + 1));
                }
                assert(out@.push(s@[i as int]) + remove_all(s@.skip(i + 1), pat@) =~= out@
                    + remove_all(t, pat@));
            }
            out.push(s[i]);
            i = i + 1;
        }
    }
    assert(s@.skip(i as int) =~= Seq::<char>::empty());
    assert(out@ + Seq::<char>::empty() =~= out@);
    out
}

fn prefix_before_chars(s: &Vec<char>, c: char) -> (r: Vec<char>)
    ensures
        r@ == prefix_before(s@, c),
{
    let n = s.len();
    let mut out: Vec<char> = Vec::new();
    let mut i: usize = 0;
    assert(s@.skip(0) =~= s@);
    while i < n
        invariant_except_break
            n == s@.len(),
            i <= n,
            out@ + prefix_before(s@.skip(i as int), c) == prefix_before(s@, c),
        ensures
            out@ == prefix_before(s@, c),
        decreases n - i,
    {
        let ghost t = s@.skip(i as int);
        if s[i] == c {
            assert(out@ + Seq::<char>::empty() =~= out@);
            break;
        }
        assert(t.drop_first() =~= s@.skip(i + 1));
        assert(out@.push(s@[i as int]) + prefix_before(s@.skip(i + 1), c) =~= out@ + (seq![t[0]]
            + prefix_before(t.drop_first(), c)));
        out.push(s[i]);
        i = i + 1;
    }
    out
}

/// The SSO session name for a start URL: `https://` is removed wherever it
/// occurs, and the part before the first `.` follows `sso-`.
pub fn session_name(start_url: &str) -> (name: String)
    requires
        start_url@.contains('.'),
    ensures
        name@ == session_name_spec(start_url@),
{
    let chars = chars_of(start_url);
    let pat = scheme_chars();
    let rest = remove_all_chars(&chars, &pat);
    proof {
        lemma_remove_all_keeps_dot(start_url@);
    }
    let host = prefix_before_chars(&rest, '.');
    let mut out: Vec<char> = vec!['s', 's', 'o', '-'];
    let mut i: usize = 0;
    let ghost head = out@;
    while i < host.len()
        invariant
            i <= host@.len(),
            head == seq!['s', 's', 'o', '-'],
            out@ == head + host@.subrange(0, i as int),
        decreases host@.len() - i,
    {
        out.push(host[i]);
        i = i + 1;
        assert(out@ =~= head + host@.subrange(0, i as int));
    }
    assert(host@.subrange(0, host@.len() as int) =~= host@);
    string_from_chars(&out)
}

/// A start URL with or without a leading `https://` names the same session.
pub proof fn lemma_session_name_ignores_scheme(start_url: Seq<char>)
    ensures
        session_name_spec(https_scheme() + start_url) == session_name_spec(start_url),
{
    let s = https_scheme() + start_url;
    assert(s.subrange(0, 8) =~= https_scheme());
    assert(s.skip(8) =~= start_url);
}

// ---------------------------------------------------------------------------
// SSO configuration
// ---------------------------------------------------------------------------

/// An SSO start URL and the region of its identity center.
#[derive(Debug)]
pub struct SsoConfig {
    pub start_url: String,
    pub region: String,
}

impl SsoConfig {
    pub fn new(start_url: &str, sso_region: &str) -> (c: SsoConfig)
        ensures
            c.start_url@ == start_url@,
            c.region@ == sso_region@,
    {
        SsoConfig { start_url: owned(start_url), region: owned(sso_region) }
    }

    /// The display form `"SSO Start URL: {start_url}\nSSO Region: {region}"`.
    pub fn describe(&self) -> (s: String)
        ensures
            s@ == "SSO Start URL: "@ + self.start_url@ + "\nSSO Region: "@ + self.region@,
    {
        let mut s = owned("SSO Start URL: ");
        s.append(self.start_url.as_str());
        s.append("\nSSO Region: ");
        s.append(self.region.as_str());
        s
    }
}

// ---------------------------------------------------------------------------
// Accounts and roles
// ---------------------------------------------------------------------------

/// An AWS account reachable through SSO.
#[derive(Debug)]
pub struct AccountInfo {
    pub account_name: String,
    pub account_id: String,
}

/// The name shown for an account that has none.
pub open spec fn unknown_account_name() -> Seq<char> {
    seq!['u', 'n', 'k', 'n', 'o', 'w', 'n']
}

impl AccountInfo {
    /// The account of a listing entry: the id must be present, a missing name
    /// reads `unknown`.
    pub fn from_listing(account_id: Option<String>, account_name: Option<String>) -> (a:
        AccountInfo)
        requires
            account_id is Some,
        ensures
            a.account_id@ == account_id->0@,
            a.account_name@ == match account_name {
                Some(n) => n@,
                None => unknown_account_name(),
            },
    {
        let id = match account_id {
            Some(id) => id,
            None => String::new(),
        };
        let name = match account_name {
            Some(n) => n,
            None => {
                let v: Vec<char> = vec!['u', 'n', 'k', 'n', 'o', 'w', 'n'];
                assert(v@ =~= unknown_account_name());
                string_from_chars(&v)
            },
        };
        AccountInfo { account_name: name, account_id: id }
    }

    /// The display form `"{account_name} - {account_id}"`.
    pub fn describe(&self) -> (s: String)
        ensures
            s@ == self.account_name@ + " - "@ + self.account_id@,
    {
        let mut s = owned(self.account_name.as_str());
        s.append(" - ");
        s.append(self.account_id.as_str());
        s
    }
}

/// Accounts order by name, then by id, as the derived order on
/// `AccountInfo` does.
pub open spec fn account_less(a: AccountInfo, b: AccountInfo) -> bool {
    seq_less(a.account_name@, b.account_name@) || (a.account_name@ == b.account_name@ && seq_less(
        a.account_id@,
        b.account_id@,
    ))
}

/// No account of `s` comes before an earlier one.
pub open spec fn accounts_sorted(s: Seq<AccountInfo>) -> bool {
    forall|i: int, j: int| 0 <= i < j < s.len() ==> !account_less(#[trigger] s[j], #[trigger] s[i])
}

/// No string of `s` comes before an earlier one.
pub open spec fn strings_sorted(s: Seq<String>) -> bool {
    forall|i: int, j: int| 0 <= i < j < s.len() ==> !seq_less(#[trigger] s[j]@, #[trigger] s[i]@)
}

proof fn lemma_account_order(a: AccountInfo, b: AccountInfo, c: AccountInfo)
    ensures
        !account_less(a, a),
        !(account_less(a, b) && account_less(b, a)),
        account_less(a, b) && account_less(b, c) ==> account_less(a, c),
        !account_less(a, b) && !account_less(b, a) ==> (a.account_name@ == b.account_name@
            && a.account_id@ == b.account_id@),
{
    lemma_seq_less_total(a.account_name@, b.account_name@);
    lemma_seq_less_total(a.account_id@, b.account_id@);
    lemma_seq_less_total(b.account_name@, c.account_name@);
    if seq_less(a.account_name@, b.account_name@) && seq_less(b.account_name@, c.account_name@) {
        lemma_seq_less_transitive(a.account_name@, b.account_name@, c.account_name@);
    }
    if seq_less(a.account_id@, b.account_id@) && seq_less(b.account_id@, c.account_id@) {
        lemma_seq_less_transitive(a.account_id@, b.account_id@, c.account_id@);
    }
}

fn account_is_less(a: &AccountInfo, b: &AccountInfo) -> (r: bool)
    ensures
        r == account_less(*a, *b),
{
    let an = chars_of(a.account_name.as_str());
    let bn = chars_of(b.account_name.as_str());
    if chars_less(&an, &bn) {
        return true;
    }
    if chars_less(&bn, &an) {
        proof {
            lemma_seq_less_total(an@, bn@);
        }
        return false;
    }
    proof {
        lemma_seq_less_total(an@, bn@);
    }
    let ai = chars_of(a.account_id.as_str());
    let bi = chars_of(b.account_id.as_str());
    chars_less(&ai, &bi)
}

/// Sorts accounts by name and then id, as `Vec::sort` on `AccountInfo` does:
/// the result is ordered and holds the same accounts.
pub fn sort_accounts(accounts: &mut Vec<AccountInfo>)
    ensures
        accounts_sorted(final(accounts)@),
        final(accounts)@.to_multiset() == old(accounts)@.to_multiset(),
        final(accounts)@.len() == old(accounts)@.len(),
{
    let ghost input = accounts@;
    let mut out: Vec<AccountInfo> = Vec::new();
    let mut rest: Vec<AccountInfo> = Vec::new();
    // move the accounts out, last first, so that popping yields them in order
    while accounts.len() > 0
        invariant
            rest@ + accounts@.reverse() == input.reverse(),
        decreases accounts@.len(),
    {
        let ghost before = accounts@;
        let a = accounts.pop().unwrap();
        proof {
            assert(before =~= accounts@.push(a));
            assert(before.reverse() =~= seq![a] + accounts@.reverse());
        }
        rest.push(a);
        assert(rest@ + accounts@.reverse() =~= input.reverse());
    }
    assert(rest@ =~= input.reverse());
    proof {
        input.lemma_reverse_to_multiset();
    }
    let ghost taken = Seq::<AccountInfo>::empty();
    while rest.len() > 0
        invariant
            accounts_sorted(out@),
            out@.to_multiset().add(rest@.to_multiset()) == input.to_multiset(),
            out@.len() + rest@.len() == input.len(),
        decreases rest@.len(),
    {
        let ghost before = rest@;
        let a = rest.pop().unwrap();
        assert(before =~= rest@.push(a));
        let mut pos: usize = 0;
        while pos < out.len() && !account_is_less(&a, &out[pos])
            invariant
                pos <= out@.len(),
                forall|k: int| 0 <= k < pos ==> !account_less(a, #[trigger] out@[k]),
            decreases out@.len() - pos,
        {
            pos = pos + 1;
        }
        let ghost old_out = out@;
        proof {
            assert forall|k: int| pos <= k < old_out.len() implies account_less(
                a,
                #[trigger] old_out[k],
            ) by {
                if k > pos {
                    assert(!account_less(old_out[k], old_out[pos as int]));
                    lemma_account_order(a, old_out[pos as int], old_out[k]);
                    lemma_account_order(old_out[k], old_out[pos as int], a);
                    if !account_less(old_out[pos as int], old_out[k]) {
                        lemma_account_order(old_out[pos as int], old_out[k], a);
                    }
                }
            }
        }
        out.insert(pos, a);
        proof {
            let s = out@;
            assert(s =~= old_out.insert(pos as int, a));
            assert forall|i: int, j: int| 0 <= i < j < s.len() implies !account_less(
                #[trigger] s[j],
                #[trigger] s[i],
            ) by {
                if i < pos && j == pos {
                    lemma_account_order(a, old_out[i], a);
                } else if i == pos && j > pos {
                    lemma_account_order(a, old_out[j - 1], a);
                } else if i < pos && j > pos {
                    assert(!account_less(old_out[j - 1], old_out[i]));
                } else if j < pos {
                    assert(!account_less(old_out[j], old_out[i]));
                } else {
                    assert(!account_less(old_out[j - 1], old_out[i - 1]));
                }
            }
            vstd::seq_lib::to_multiset_insert(old_out, pos as int, a);
            vstd::seq_lib::to_multiset_build(rest@, a);
        }
        assert(out@.to_multiset().add(rest@.to_multiset()) =~= input.to_multiset());
    }
    assert(rest@ =~= Seq::<AccountInfo>::empty());
    assert(out@.to_multiset() =~= input.to_multiset());
    *accounts = out;
}

proof fn lemma_string_order(a: Seq<char>, b: Seq<char>, c: Seq<char>)
    ensures
        !seq_less(a, a),
        seq_less(a, b) ==> !seq_less(b, a),
        !seq_less(a, b) ==> (seq_less(b, a) || a == b),
        seq_less(a, b) && !seq_less(c, b) ==> seq_less(a, c),
{
    lemma_seq_less_total(a, b);
    lemma_seq_less_total(b, c);
    if seq_less(a, b) && seq_less(b, c) {
        lemma_seq_less_transitive(a, b, c);
    }
}

fn string_is_less(a: &String, b: &String) -> (r: bool)
    ensures
        r == seq_less(a@, b@),
{
    let av = chars_of(a.as_str());
    let bv = chars_of(b.as_str());
    chars_less(&av, &bv)
}

/// Sorts role names, as `Vec::sort` on strings does: the result is ordered
/// and holds the same names.
pub fn sort_roles(accounts: &mut Vec<String>)
    ensures
        strings_sorted(final(accounts)@),
        final(accounts)@.to_multiset() == old(accounts)@.to_multiset(),
        final(accounts)@.len() == old(accounts)@.len(),
{
    let ghost input = accounts@;
    let mut out: Vec<String> = Vec::new();
    let mut rest: Vec<String> = Vec::new();
    // move the accounts out, last first, so that popping yields them in order
    while accounts.len() > 0
        invariant
            rest@ + accounts@.reverse() == input.reverse(),
        decreases accounts@.len(),
    {
        let ghost before = accounts@;
        let a = accounts.pop().unwrap();
        proof {
            assert(before =~= accounts@.push(a));
            assert(before.reverse() =~= seq![a] + accounts@.reverse());
        }
        rest.push(a);
        assert(rest@ + accounts@.reverse() =~= input.reverse());
    }
    assert(rest@ =~= input.reverse());
    proof {
        input.lemma_reverse_to_multiset();
    }
    let ghost taken = Seq::<String>::empty();
    while rest.len() > 0
        invariant
            strings_sorted(out@),
            out@.to_multiset().add(rest@.to_multiset()) == input.to_multiset(),
            out@.len() + rest@.len() == input.len(),
        decreases rest@.len(),
    {
        let ghost before = rest@;
        let a = rest.pop().unwrap();
        assert(before =~= rest@.push(a));
        let mut pos: usize = 0;
        while pos < out.len() && !string_is_less(&a, &out[pos])
            invariant
                pos <= out@.len(),
                forall|k: int| 0 <= k < pos ==> !seq_less(a@, #[trigger] out@[k]@),
            decreases out@.len() - pos,
        {
            pos = pos + 1;
        }
        let ghost old_out = out@;
        proof {
            assert forall|k: int| pos <= k < old_out.len() implies seq_less(
                a@,
                #[trigger] old_out[k]@,
            ) by {
                if k > pos {
                    assert(!seq_less(old_out[k]@, old_out[pos as int]@));
                    lemma_string_order(a@, old_out[pos as int]@, old_out[k]@);
                }
            }
        }
        out.insert(pos, a);
        proof {
            let s = out@;
            assert(s =~= old_out.insert(pos as int, a));
            assert forall|i: int, j: int| 0 <= i < j < s.len() implies !seq_less(
                #[trigger] s[j]@,
                #[trigger] s[i]@,
            ) by {
                if i < pos && j == pos {
                    lemma_string_order(a@, old_out[i]@, a@);
                } else if i == pos && j > pos {
                    lemma_string_order(a@, old_out[j - 1]@, a@);
                } else if i < pos && j > pos {
                    assert(!seq_less(old_out[j - 1]@, old_out[i]@));
                } else if j < pos {
                    assert(!seq_less(old_out[j]@, old_out[i]@));
                } else {
                    assert(!seq_less(old_out[j - 1]@, old_out[i - 1]@));
                }
            }
            vstd::seq_lib::to_multiset_insert(old_out, pos as int, a);
            vstd::seq_lib::to_multiset_build(rest@, a);
        }
        assert(out@.to_multiset().add(rest@.to_multiset()) =~= input.to_multiset());
    }
    assert(rest@ =~= Seq::<String>::empty());
    assert(out@.to_multiset() =~= input.to_multiset());
    *accounts = out;
}

} // verus!

//! Reading what Git prints, comparing remote addresses, and shaping the
//! results of Git work.
use vstd::prelude::*;
use vstd::string::StringSliceAdditionalSpecFns;
use crate::models::{GitAccountProfile, GitResult, RepositoryPathKind, RepositoryPathStatus};
use crate::text::{
    lemma_trimmed_ends, is_white_space, string_views, char_views, chars_of, has_prefix, has_suffix, is_blank, lines, prefix_at, same_chars,
    split_lines, split_words, string_of, string_of_all, suffix_before, trim, trim_bounds, words,
};

verus! {

pub open spec fn ref_word() -> Seq<char> {
    seq!['r', 'e', 'f', ':']
}

pub open spec fn head_word() -> Seq<char> {
    seq!['H', 'E', 'A', 'D']
}

pub open spec fn heads_prefix() -> Seq<char> {
    seq!['r', 'e', 'f', 's', '/', 'h', 'e', 'a', 'd', 's', '/']
}

/// The branch that one line of `git ls-remote --symref origin HEAD` names:
/// a line `ref: refs/heads/<branch> HEAD`.
pub open spec fn branch_of_line(line: Seq<char>) -> Option<Seq<char>> {
    let w = words(line);
    if w.len() >= 3 && w[0] == ref_word() && w[2] == head_word() && has_prefix(
        w[1],
        heads_prefix(),
    ) {
        Some(w[1].skip(heads_prefix().len() as int))
    } else {
        None
    }
}

/// The branch named by the first line that names one.
pub open spec fn first_branch(ls: Seq<Seq<char>>) -> Option<Seq<char>>
    decreases ls.len(),
{
    if ls.len() == 0 {
        None
    } else {
        match branch_of_line(ls[0]) {
            Some(b) => Some(b),
            None => first_branch(ls.drop_first()),
        }
    }
}

/// The remote's default branch, as `git ls-remote --symref origin HEAD`
/// reports it.
pub open spec fn spec_default_branch(output: Seq<char>) -> Option<Seq<char>> {
    first_branch(lines(output))
}

fn branch_in_line(line: &Vec<char>) -> (r: Option<String>)
    ensures
        match r {
            Some(b) => branch_of_line(line@) == Some(b@),
            None => branch_of_line(line@) is None,
        },
{
    let w = split_words(line);
    if w.len() < 3 {
        return None;
    }
    let ref_marker = chars_of("ref:");
    let head = chars_of("HEAD");
    let prefix = chars_of("refs/heads/");
    proof {
        reveal_strlit("ref:");
        reveal_strlit("HEAD");
        reveal_strlit("refs/heads/");
        assert(ref_marker@ =~= ref_word());
        assert(head@ =~= head_word());
        assert(prefix@ =~= heads_prefix());
        assert(char_views(w@)[0] == w@[0]@);
        assert(char_views(w@)[1] == w@[1]@);
        assert(char_views(w@)[2] == w@[2]@);
    }
    if !same_chars(&w[0], &ref_marker) || !same_chars(&w[2], &head) {
        return None;
    }
    let reference = &w[1];
    assert(reference@.skip(0) =~= reference@);
    if !prefix_at(reference, 0, &prefix) {
        return None;
    }
    let b = string_of(reference, prefix.len(), reference.len());
    assert(b@ =~= reference@.skip(heads_prefix().len() as int));
    Some(b)
}

/// The default branch that `git ls-remote --symref origin HEAD` printed in
/// `output`, if a line names one.
pub fn default_branch(output: &str) -> (r: Option<String>)
    ensures
        match r {
            Some(b) => spec_default_branch(output@) == Some(b@),
            None => spec_default_branch(output@) is None,
        },
{
    let v = chars_of(output);
    let ls = split_lines(&v);
    let ghost all = char_views(ls@);
    let mut i: usize = 0;
    assert(all.skip(0) =~= all);
    while i < ls.len()
        invariant
            i <= ls@.len(),
            all == char_views(ls@),
            all == lines(output@),
            first_branch(all) == first_branch(all.skip(i as int)),
        decreases ls@.len() - i,
    {
        let ghost rest = all.skip(i as int);
        assert(rest[0] == ls@[i as int]@);
        match branch_in_line(&ls[i]) {
            Some(b) => {
                return Some(b);
            },
            None => {
                assert(rest.drop_first() =~= all.skip(i + 1));
                i = i + 1;
            },
        }
    }
    assert(all.skip(i as int) =~= Seq::<Seq<char>>::empty());
    None
}

/// The accounts in `git credential-manager github list` output: trimmed
/// lines that are neither empty nor warnings.
pub open spec fn account_lines(ls: Seq<Seq<char>>) -> Seq<Seq<char>>
    decreases ls.len(),
{
    if ls.len() == 0 {
        seq![]
    } else {
        let t = trim(ls[0]);
        let rest = account_lines(ls.drop_first());
        if t.len() > 0 && !has_prefix(t, warning_prefix()) {
            seq![t] + rest
        } else {
            rest
        }
    }
}

pub open spec fn warning_prefix() -> Seq<char> {
    "warning:"@
}

/// The GitHub accounts that the credential manager listed, or the listing's
/// own error.
pub fn github_accounts(listing: Result<String, String>) -> (r: Result<Vec<String>, String>)
    ensures
        match listing {
            Ok(output) => r matches Ok(names) && string_views(names@)
                == account_lines(lines(output@)),
            Err(e) => r matches Err(f) && f@ == e@,
        },
{
    let output = match listing {
        Ok(output) => output,
        Err(e) => {
            return Err(e);
        },
    };
    let v = chars_of(output.as_str());
    let ls = split_lines(&v);
    let warning = chars_of("warning:");
    let ghost all = char_views(ls@);
    let mut names: Vec<String> = Vec::new();
    let mut i: usize = 0;
    assert(all.skip(0) =~= all);
    assert(string_views(names@) =~= Seq::<Seq<char>>::empty());
    while i < ls.len()
        invariant
            i <= ls@.len(),
            all == char_views(ls@),
            all == lines(output@),
            warning@ == warning_prefix(),
            account_lines(all) == string_views(names@) + account_lines(
                all.skip(i as int),
            ),
        decreases ls@.len() - i,
    {
        let ghost rest = all.skip(i as int);
        assert(rest[0] == ls@[i as int]@);
        assert(rest.drop_first() =~= all.skip(i + 1));
        let line = &ls[i];
        let (a, b) = trim_bounds(line);
        let keep = a < b && !(prefix_at(line, a, &warning) && warning.len() <= b - a);
        proof {
            let t = line@.subrange(a as int, b as int);
            if warning@.len() <= b - a {
                assert(t.take(warning@.len() as int) =~= line@.skip(a as int).take(
                    warning@.len() as int,
                ));
            }
        }
        let ghost before = names@;
        if keep {
            let name = string_of(line, a, b);
            names.push(name);
            proof {
                assert(string_views(names@) =~= string_views(before).push(
                    name@,
                ));
            }
        }
        i = i + 1;
    }
    assert(all.skip(i as int) =~= Seq::<Seq<char>>::empty());
    assert(string_views(names@) + seq![] =~= string_views(names@));
    Ok(names)
}


/// `s` with trailing `/` and `\` removed.
pub open spec fn trim_separators(s: Seq<char>) -> Seq<char>
    decreases s.len(),
{
    if s.len() > 0 && (s.last() == '/' || s.last() == '\\') {
        trim_separators(s.drop_last())
    } else {
        s
    }
}

pub open spec fn git_suffix() -> Seq<char> {
    seq!['.', 'g', 'i', 't']
}

/// `s` with trailing `.git` removed, as often as it ends with it.
pub open spec fn trim_git_suffixes(s: Seq<char>) -> Seq<char>
    decreases s.len(),
{
    if has_suffix(s, git_suffix()) {
        trim_git_suffixes(s.take(s.len() - 4))
    } else {
        s
    }
}

pub open spec fn https_prefix() -> Seq<char> {
    seq!['h', 't', 't', 'p', 's', ':', '/', '/']
}

pub open spec fn http_prefix() -> Seq<char> {
    seq!['h', 't', 't', 'p', ':', '/', '/']
}

pub open spec fn ssh_prefix() -> Seq<char> {
    seq!['s', 's', 'h', ':', '/', '/']
}

pub open spec fn scp_prefix() -> Seq<char> {
    seq!['g', 'i', 't', '@']
}

/// `s` without the first of `https://`, `http://`, `ssh://`, `git@` that
/// begins it.
pub open spec fn strip_scheme(s: Seq<char>) -> Seq<char> {
    if has_prefix(s, https_prefix()) {
        s.skip(8)
    } else if has_prefix(s, http_prefix()) {
        s.skip(7)
    } else if has_prefix(s, ssh_prefix()) {
        s.skip(6)
    } else if has_prefix(s, scp_prefix()) {
        s.skip(4)
    } else {
        s
    }
}

/// `:` and `\` turned into `/`.
pub open spec fn unify_separator(c: char) -> char {
    if c == ':' || c == '\\' {
        '/'
    } else {
        c
    }
}

/// What a remote address is compared by, before lower-casing.
pub open spec fn remote_key(s: Seq<char>) -> Seq<char> {
    strip_scheme(trim_git_suffixes(trim_separators(trim(s)))).map_values(
        |c: char| unify_separator(c),
    )
}

/// What `str::to_lowercase` returns for a string: its Unicode lower-case
/// mapping.
pub uninterp spec fn lowercase(s: Seq<char>) -> Seq<char>;

/// `str::to_lowercase`. Claimed: the result is `lowercase` of the input, so
/// equal inputs give equal results; nothing more is said of the mapping.
#[verifier::external_body]
fn to_lowercase(s: &str) -> (r: String)
    ensures
        r@ == lowercase(s@),
{
    s.to_lowercase()
}

/// The form in which two remote addresses are compared.
pub open spec fn normalized_remote(s: Seq<char>) -> Seq<char> {
    lowercase(remote_key(s))
}

proof fn lemma_trim_separators_step(s: Seq<char>, a: int, end: int)
    requires
        0 <= a < end <= s.len(),
        s[end - 1] == '/' || s[end - 1] == '\\',
    ensures
        trim_separators(s.subrange(a, end)) == trim_separators(s.subrange(a, end - 1)),
{
    let t = s.subrange(a, end);
    assert(t.last() == s[end - 1]);
    assert(t.drop_last() =~= s.subrange(a, end - 1));
}

proof fn lemma_trim_git_step(s: Seq<char>, a: int, end: int)
    requires
        0 <= a <= end - 4,
        end <= s.len(),
        s.subrange(end - 4, end) == git_suffix(),
    ensures
        trim_git_suffixes(s.subrange(a, end)) == trim_git_suffixes(s.subrange(a, end - 4)),
{
    let t = s.subrange(a, end);
    assert(t.skip(t.len() - 4) =~= s.subrange(end - 4, end));
    assert(t.take(t.len() - 4) =~= s.subrange(a, end - 4));
}

/// Whether the prefix `p` begins `v[a..end]`.
fn prefix_within(v: &Vec<char>, a: usize, end: usize, p: &Vec<char>) -> (r: bool)
    requires
        a <= end <= v@.len(),
    ensures
        r == has_prefix(v@.subrange(a as int, end as int), p@),
{
    let r = p.len() <= end - a && prefix_at(v, a, p);
    proof {
        if p@.len() <= end - a {
            assert(v@.subrange(a as int, end as int).take(p@.len() as int) =~= v@.skip(a as int).take(
                p@.len() as int,
            ));
        }
    }
    r
}

/// The form in which `git remote get-url origin` and a registered address
/// are compared: trimmed, without trailing separators and `.git`, without
/// the scheme or `git@`, with `:` and `\` as `/`, in lower case.
pub fn normalize_remote(value: &str) -> (r: String)
    ensures
        r@ == normalized_remote(value@),
{
    let v = chars_of(value);
    let (a, b) = trim_bounds(&v);
    let mut end = b;
    while end > a && (v[end - 1] == '/' || v[end - 1] == '\\')
        invariant
            a <= end <= b <= v@.len(),
            trim_separators(trim(value@)) == trim_separators(v@.subrange(a as int, end as int)),
            v@ == value@,
            trim(v@) == v@.subrange(a as int, b as int),
        decreases end,
    {
        proof {
            lemma_trim_separators_step(v@, a as int, end as int);
        }
        end = end - 1;
    }
    proof {
        let t = v@.subrange(a as int, end as int);
        if end > a {
            assert(t.last() == v@[end - 1]);
        }
        assert(trim_separators(t) == t);
    }
    let git = chars_of(".git");
    proof {
        reveal_strlit(".git");
        assert(git@ =~= git_suffix());
    }
    let ghost base = v@.subrange(a as int, end as int);
    while end - a >= 4 && suffix_before(&v, end, &git)
        invariant
            a <= end <= v@.len(),
            git@ == git_suffix(),
            trim_git_suffixes(base) == trim_git_suffixes(v@.subrange(a as int, end as int)),
        decreases end,
    {
        proof {
            assert(v@.take(end as int).skip(end - 4) =~= v@.subrange(end - 4, end as int));
            lemma_trim_git_step(v@, a as int, end as int);
        }
        end = end - 4;
    }
    proof {
        let t = v@.subrange(a as int, end as int);
        if end - a >= 4 {
            assert(v@.take(end as int).skip(end - 4) =~= t.skip(t.len() - 4));
        }
        assert(trim_git_suffixes(t) == t);
    }
    let ghost stem = v@.subrange(a as int, end as int);
    let https = chars_of("https://");
    let http = chars_of("http://");
    let ssh = chars_of("ssh://");
    let scp = chars_of("git@");
    proof {
        reveal_strlit("https://");
        reveal_strlit("http://");
        reveal_strlit("ssh://");
        reveal_strlit("git@");
        assert(https@ =~= https_prefix());
        assert(http@ =~= http_prefix());
        assert(ssh@ =~= ssh_prefix());
        assert(scp@ =~= scp_prefix());
    }
    let start = if prefix_within(&v, a, end, &https) {
        a + 8
    } else if prefix_within(&v, a, end, &http) {
        a + 7
    } else if prefix_within(&v, a, end, &ssh) {
        a + 6
    } else if prefix_within(&v, a, end, &scp) {
        a + 4
    } else {
        a
    };
    assert(strip_scheme(stem) =~= v@.subrange(start as int, end as int));
    let mut key = String::new();
    let mut i = start;
    while i < end
        invariant
            start <= i <= end <= v@.len(),
            key@ == v@.subrange(start as int, i as int).map_values(|c: char| unify_separator(c)),
        decreases end - i,
    {
        let c = v[i];
        let d = if c == ':' || c == '\\' {
            '/'
        } else {
            c
        };
        key.push(d);
        i = i + 1;
        assert(key@ =~= v@.subrange(start as int, i as int).map_values(
            |c: char| unify_separator(c),
        ));
    }
    assert(key@ == remote_key(value@));
    to_lowercase(key.as_str())
}

pub open spec fn is_ascii_alphanumeric(c: char) -> bool {
    ('0' <= c <= '9') || ('a' <= c <= 'z') || ('A' <= c <= 'Z')
}

/// A GitHub login: 1 to 39 ASCII letters, digits and hyphens, neither
/// beginning nor ending with a hyphen. (Such a login has as many bytes as
/// characters.)
pub open spec fn is_valid_login(s: Seq<char>) -> bool {
    &&& 0 < s.len() <= 39
    &&& s[0] != '-'
    &&& s.last() != '-'
    &&& forall|i: int| 0 <= i < s.len() ==> is_ascii_alphanumeric(#[trigger] s[i]) || s[i] == '-'
}

/// Whether `account` may name a GitHub user whose public profile is fetched.
pub fn valid_github_login(account: &str) -> (r: bool)
    ensures
        r == is_valid_login(account@),
{
    let v = chars_of(account);
    let n = v.len();
    if n == 0 || n > 39 || v[0] == '-' || v[n - 1] == '-' {
        return false;
    }
    let mut i: usize = 0;
    while i < n
        invariant
            n == v@.len(),
            v@ == account@,
            i <= n,
            forall|k: int| 0 <= k < i ==> is_ascii_alphanumeric(#[trigger] v@[k]) || v@[k] == '-',
        decreases n - i,
    {
        let c = v[i];
        if !(('0' <= c && c <= '9') || ('a' <= c && c <= 'z') || ('A' <= c && c <= 'Z') || c
            == '-') {
            assert(!(is_ascii_alphanumeric(account@[i as int]) || account@[i as int] == '-'));
            return false;
        }
        i = i + 1;
    }
    true
}

/// A profile text trimmed and cut to `limit` characters; blank or absent
/// text is absent.
pub open spec fn cleaned_text(value: Option<Seq<char>>, limit: nat) -> Option<Seq<char>> {
    match value {
        None => None,
        Some(v) => {
            let t = trim(v);
            if t.len() == 0 {
                None
            } else if t.len() <= limit {
                Some(t)
            } else {
                Some(t.take(limit as int))
            }
        },
    }
}

pub open spec fn option_view(o: Option<String>) -> Option<Seq<char>> {
    match o {
        Some(s) => Some(s@),
        None => None,
    }
}

/// `value` trimmed and cut to its first `limit` characters; `None` when it
/// is absent or blank.
pub fn clean_profile_text(value: Option<String>, limit: usize) -> (r: Option<String>)
    ensures
        option_view(r) == cleaned_text(option_view(value), limit as nat),
{
    match value {
        None => None,
        Some(text) => {
            let v = chars_of(text.as_str());
            let (a, b) = trim_bounds(&v);
            if a == b {
                None
            } else {
                let end = if b - a <= limit {
                    b
                } else {
                    a + limit
                };
                let s = string_of(&v, a, end);
                proof {
                    let t = v@.subrange(a as int, b as int);
                    if b - a > limit {
                        assert(t.take(limit as int) =~= v@.subrange(a as int, end as int));
                    }
                }
                Some(s)
            }
        },
    }
}

/// The profile shown for `login` when its public profile cannot be read:
/// nothing but the login, and the notice that the profile is unavailable.
pub open spec fn is_unavailable(p: GitAccountProfile, login: Seq<char>) -> bool {
    &&& p.login@ == login
    &&& p.name is None
    &&& p.bio is None
    &&& p.company is None
    &&& p.location is None
    &&& p.public_repos == 0
    &&& p.followers == 0
    &&& p.avatar_data is None
    &&& p.profile_error matches Some(e) && e@ == "公开资料暂不可用"@
}

/// The profile shown for an account whose public profile could not be read.
pub fn unavailable_profile(login: String) -> (p: GitAccountProfile)
    ensures
        is_unavailable(p, login@),
{
    GitAccountProfile {
        login,
        name: None,
        bio: None,
        company: None,
        location: None,
        public_repos: 0,
        followers: 0,
        avatar_data: None,
        profile_error: Some(String::from_str("公开资料暂不可用")),
    }
}

/// A message with its details after a full-width colon, or the message alone
/// when the details are blank.
pub open spec fn joined_error(message: Seq<char>, details: Seq<char>) -> Seq<char> {
    if trim(details).len() == 0 {
        message
    } else {
        message + "："@ + details
    }
}

pub fn join_error(message: String, details: String) -> (r: String)
    ensures
        r@ == joined_error(message@, details@),
{
    if is_blank(details.as_str()) {
        message
    } else {
        message.concat("：").concat(details.as_str())
    }
}

/// What a Git pass returned, as a success flag with message and details.
pub fn into_result(result: Result<(String, String), (String, String)>) -> (r: GitResult)
    ensures
        match result {
            Ok((m, d)) => r.success && r.message@ == m@ && r.details@ == d@,
            Err((m, d)) => !r.success && r.message@ == m@ && r.details@ == d@,
        },
{
    match result {
        Ok((message, details)) => GitResult { success: true, message, details },
        Err((message, details)) => GitResult { success: false, message, details },
    }
}

pub fn path_status(kind: RepositoryPathKind, message: String) -> (r: RepositoryPathStatus)
    ensures
        r.kind == kind,
        r.message@ == message@,
{
    RepositoryPathStatus { kind, message }
}

/// The first seven bytes of a commit hash, or all of it when seven bytes do
/// not end on a character boundary.
pub open spec fn shortened(bytes: Seq<u8>) -> Seq<u8> {
    if vstd::utf8::is_char_boundary(bytes, 7) {
        bytes.take(7)
    } else {
        bytes
    }
}

/// The abbreviated form of a commit hash: its first seven bytes when they
/// end on a character boundary, the whole value otherwise.
pub fn short(value: &str) -> (r: &str)
    ensures
        r.spec_bytes() == shortened(value.spec_bytes()),
        r@ == short_text(value@),
{
    if value.is_char_boundary(7) {
        let (head, _) = value.split_at(7);
        assert(head.spec_bytes() =~= value.spec_bytes().take(7));
        proof {
            vstd::utf8::encode_utf8_decode_utf8(head@);
        }
        head
    } else {
        proof {
            vstd::utf8::encode_utf8_decode_utf8(value@);
        }
        value
    }
}

/// The characters of the abbreviated commit hash.
pub open spec fn short_text(s: Seq<char>) -> Seq<char> {
    vstd::utf8::decode_utf8(shortened(vstd::utf8::encode_utf8(s)))
}


/// The form in which remote addresses are compared, before it is put in
/// lower case, holds no `:` and no `\`: both became `/`.
pub proof fn law_remote_key_has_no_colon_or_backslash(s: Seq<char>)
    ensures
        forall|i: int| 0 <= i < remote_key(s).len() ==> #[trigger] remote_key(s)[i] != ':'
            && remote_key(s)[i] != '\\',
{
}

/// An address names the same remote with a trailing `/` or `.git` added:
/// for a trimmed address that does not already end with a separator, both
/// compare equal to it.
pub proof fn law_remote_ignores_trailing_slash_and_git(v: Seq<char>)
    requires
        trim(v) == v,
        v.len() == 0 || (v.last() != '/' && v.last() != '\\'),
    ensures
        normalized_remote(v.push('/')) == normalized_remote(v),
        normalized_remote(v + git_suffix()) == normalized_remote(v),
{
    if v.len() > 0 {
        lemma_trimmed_ends(v);
    }
    assert(trim_separators(v) == v);
    let w = v.push('/');
    assert(w[0] == (if v.len() > 0 { v[0] } else { '/' }));
    assert(!is_white_space(w[0]));
    assert(crate::text::trim_start(w) == w);
    assert(!is_white_space(w.last()));
    assert(trim(w) == w);
    assert(w.drop_last() =~= v);
    assert(trim_separators(w) == trim_separators(v));
    let g = v + git_suffix();
    assert(g.len() == v.len() + 4);
    assert(g[0] == (if v.len() > 0 { v[0] } else { '.' }));
    assert(!is_white_space(g[0]));
    assert(crate::text::trim_start(g) == g);
    assert(g.last() == 't');
    assert(!is_white_space(g.last()));
    assert(trim(g) == g);
    assert(trim_separators(g) == g);
    assert(g.skip(g.len() - 4) =~= git_suffix());
    assert(g.take(g.len() - 4) =~= v);
    assert(trim_git_suffixes(g) == trim_git_suffixes(v));
}

} // verus!

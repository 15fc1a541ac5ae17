use vstd::prelude::*;

use crate::errors::ApiError;

verus! {

/// A repository address with the selectors that may pick a point in its history.
#[derive(Debug, Clone, PartialEq, Eq)]
pub struct GitReference {
    pub repo: String,
    pub branch: Option<String>,
    pub tag: Option<String>,
    pub rev: Option<String>,
}

/// A selector counts only when it is present and non-empty.
pub open spec fn selected(o: Option<String>) -> bool {
    o is Some && o->Some_0@.len() > 0
}

/// The reference a set of selectors resolves to: the revision wins over the
/// tag, which wins over the branch; none when no selector is given.
pub open spec fn resolved_reference(
    branch: Option<String>,
    tag: Option<String>,
    rev: Option<String>,
) -> Option<Seq<char>> {
    if selected(rev) {
        Some(rev->Some_0@)
    } else if selected(tag) {
        Some(tag->Some_0@)
    } else if selected(branch) {
        Some(branch->Some_0@)
    } else {
        None
    }
}

fn is_selected(o: &Option<String>) -> (r: bool)
    ensures
        r == selected(*o),
{
    match o {
        Some(s) => !s.as_str().is_empty(),
        None => false,
    }
}

impl GitReference {
    /// The single reference to hand to the source-control client.
    pub fn reference(&self) -> (r: Option<String>)
        ensures
            r is Some == resolved_reference(self.branch, self.tag, self.rev) is Some,
            r is Some ==> r->Some_0@ == resolved_reference(self.branch, self.tag, self.rev)->Some_0,
    {
        if is_selected(&self.rev) {
            self.rev.clone()
        } else if is_selected(&self.tag) {
            self.tag.clone()
        } else if is_selected(&self.branch) {
            self.branch.clone()
        } else {
            None
        }
    }
}

/// Exactly one selector: when just one of branch, tag and revision is given,
/// the reference resolves to it, whatever the order of precedence.
pub proof fn lemma_single_selector_resolves(
    branch: Option<String>,
    tag: Option<String>,
    rev: Option<String>,
)
    ensures
        selected(branch) && !selected(tag) && !selected(rev) ==> resolved_reference(branch, tag, rev)
            == Some(branch->Some_0@),
        !selected(branch) && selected(tag) && !selected(rev) ==> resolved_reference(branch, tag, rev)
            == Some(tag->Some_0@),
        !selected(branch) && !selected(tag) && selected(rev) ==> resolved_reference(branch, tag, rev)
            == Some(rev->Some_0@),
        !selected(branch) && !selected(tag) && !selected(rev) ==> resolved_reference(
            branch,
            tag,
            rev,
        ) is None,
{
}

/// What url::Url::parse followed by Url::path yields for an address: the
/// path when the address parses, none when it does not.
pub uninterp spec fn url_path_of(s: Seq<char>) -> Option<Seq<char>>;

/// Relies on url::Url::parse to parse an absolute URL and on Url::path for
/// its percent-encoded path.
#[verifier::external_body]
fn parse_url_path(s: &str) -> (r: Result<String, url::ParseError>)
    ensures
        match r {
            Ok(p) => url_path_of(s@) == Some(p@),
            Err(_) => url_path_of(s@) is None,
        },
{
    url::Url::parse(s).map(|u| u.path().to_string())
}

pub open spec fn git_suffix() -> Seq<char> {
    seq!['.', 'g', 'i', 't']
}

/// A URL path without its leading slash and without a trailing `.git`.
pub open spec fn short_name_of_path(p: Seq<char>) -> Seq<char> {
    let q = if p.len() > 0 && p[0] == '/' {
        p.drop_first()
    } else {
        p
    };
    if q.len() >= 4 && q.subrange(q.len() - 4, q.len() as int) == git_suffix() {
        q.subrange(0, q.len() - 4)
    } else {
        q
    }
}

/// The `owner/repo` short name of a repository address, when it parses.
pub open spec fn short_name_of(url: Seq<char>) -> Option<Seq<char>> {
    match url_path_of(url) {
        Some(p) => Some(short_name_of_path(p)),
        None => None,
    }
}

/// Strips the leading slash and a trailing `.git` from a URL path.
pub fn short_name_from_path(p: &str) -> (r: String)
    ensures
        r@ == short_name_of_path(p@),
{
    let n = p.unicode_len();
    let start: usize = if n > 0 && p.get_char(0) == '/' {
        1
    } else {
        0
    };
    let mut end: usize = n;
    if n >= start + 4 && p.get_char(n - 4) == '.' && p.get_char(n - 3) == 'g' && p.get_char(n - 2)
        == 'i' && p.get_char(n - 1) == 't' {
        end = n - 4;
    }
    let r = String::from_str(p.substring_char(start, end));
    proof {
        let q = if p@.len() > 0 && p@[0] == '/' {
            p@.drop_first()
        } else {
            p@
        };
        assert(q =~= p@.subrange(start as int, n as int));
        if q.len() >= 4 && q.subrange(q.len() - 4, q.len() as int) == git_suffix() {
            assert(q.subrange(q.len() - 4, q.len() as int)[3] == 't');
        }
        if end < n {
            assert(q.subrange(q.len() - 4, q.len() as int) =~= git_suffix());
        }
        assert(r@ =~= short_name_of_path(p@));
    }
    r
}

/// The `owner/repo` short name of a repository address, as the source-control
/// client names repositories.
pub fn repo(url: &str) -> (r: Result<String, ApiError>)
    ensures
        r is Ok <==> short_name_of(url@) is Some,
        r is Ok ==> r->Ok_0@ == short_name_of(url@)->Some_0,
        r is Err ==> r->Err_0 is InvalidRepoAddress,
{
    match parse_url_path(url) {
        Ok(p) => Ok(short_name_from_path(p.as_str())),
        Err(e) => Err(ApiError::InvalidRepoAddress(e)),
    }
}

/// The index of the first `/` at or after `from`, or the length when none follows.
pub open spec fn next_slash(s: Seq<char>, from: int) -> int
    decreases s.len() - from,
{
    if from >= s.len() {
        s.len() as int
    } else if s[from] == '/' {
        from
    } else {
        next_slash(s, from + 1)
    }
}

/// The second `/`-separated segment of a short name: the repository's own name.
pub open spec fn second_segment(s: Seq<char>) -> Option<Seq<char>> {
    let i = next_slash(s, 0);
    if i >= s.len() {
        None
    } else {
        Some(s.subrange(i + 1, next_slash(s, i + 1)))
    }
}

proof fn lemma_next_slash_bounds(s: Seq<char>, from: int)
    requires
        0 <= from <= s.len(),
    ensures
        from <= next_slash(s, from) <= s.len(),
        next_slash(s, from) < s.len() ==> s[next_slash(s, from)] == '/',
        forall|k: int| from <= k < next_slash(s, from) ==> s[k] != '/',
    decreases s.len() - from,
{
    if from < s.len() && s[from] != '/' {
        lemma_next_slash_bounds(s, from + 1);
    }
}

fn find_slash(s: &str, from: usize, n: usize) -> (r: usize)
    requires
        n == s@.len(),
        from <= n,
    ensures
        r == next_slash(s@, from as int),
{
    let mut i = from;
    while i < n
        invariant
            n == s@.len(),
            from <= i <= n,
            next_slash(s@, i as int) == next_slash(s@, from as int),
        decreases n - i,
    {
        if s.get_char(i) == '/' {
            return i;
        }
        i = i + 1;
    }
    i
}

/// The repository's own name within an `owner/repo` short name.
pub fn repo_name(short: &str) -> (r: Option<String>)
    ensures
        r is Some == second_segment(short@) is Some,
        r is Some ==> r->Some_0@ == second_segment(short@)->Some_0,
{
    let n = short.unicode_len();
    let i = find_slash(short, 0, n);
    if i >= n {
        None
    } else {
        proof {
            lemma_next_slash_bounds(short@, i + 1);
        }
        let j = find_slash(short, i + 1, n);
        Some(String::from_str(short.substring_char(i + 1, j)))
    }
}

proof fn lemma_next_slash_skips(s: Seq<char>, from: int, to: int)
    requires
        0 <= from <= to <= s.len(),
        forall|k: int| from <= k < to ==> s[k] != '/',
        to == s.len() || s[to] == '/',
    ensures
        next_slash(s, from) == to,
    decreases to - from,
{
    if from < to {
        lemma_next_slash_skips(s, from + 1, to);
    }
}

/// Short names of repository addresses: an address whose path is `/owner/repo`
/// or `/owner/repo.git`, where neither part holds a slash, has the short name
/// `owner/repo`, and `repo` is the repository's name within it.
pub proof fn lemma_short_name_of_owner_repo(
    url: Seq<char>,
    owner: Seq<char>,
    name: Seq<char>,
    with_suffix: bool,
)
    requires
        forall|k: int| 0 <= k < owner.len() ==> owner[k] != '/',
        forall|k: int| 0 <= k < name.len() ==> name[k] != '/',
        !with_suffix ==> !(name.len() >= 4 && name.subrange(name.len() - 4, name.len() as int)
            == git_suffix()),
        url_path_of(url) == Some(
            seq!['/'] + owner + seq!['/'] + name + if with_suffix {
                git_suffix()
            } else {
                Seq::<char>::empty()
            },
        ),
    ensures
        short_name_of(url) == Some(owner + seq!['/'] + name),
        second_segment(owner + seq!['/'] + name) == Some(name),
{
    let short = owner + seq!['/'] + name;
    let tail = if with_suffix {
        git_suffix()
    } else {
        Seq::<char>::empty()
    };
    let p = seq!['/'] + owner + seq!['/'] + name + tail;
    let q = p.drop_first();
    assert(q =~= short + tail);
    if with_suffix {
        assert(q.subrange(q.len() - 4, q.len() as int) =~= git_suffix());
        assert(q.subrange(0, q.len() - 4) =~= short);
    } else {
        assert(q =~= short);
        if q.len() >= 4 {
            let w = q.subrange(q.len() - 4, q.len() as int);
            if name.len() >= 4 {
                assert(w =~= name.subrange(name.len() - 4, name.len() as int));
            } else {
                assert(w[3 - name.len()] == '/');
                assert(git_suffix()[3 - name.len()] != '/');
                assert(w != git_suffix());
            }
        }
    }
    assert(short_name_of_path(p) == short);
    assert(short[owner.len() as int] == '/');
    lemma_next_slash_skips(short, 0, owner.len() as int);
    lemma_next_slash_skips(short, owner.len() as int + 1, short.len() as int);
    assert(short.subrange(owner.len() as int + 1, short.len() as int) =~= name);
}

} // verus!

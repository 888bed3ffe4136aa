//! The access credential and its checked on-disk encoding.
//!
//! A [`Credential`] is written as one `key=value` line per field, each line
//! terminated by a newline, the scope lines last.  [`render_credential`]
//! produces exactly that text and [`load_credential`] reads it back,
//! reporting an absent file as [`LoadError::NotFound`] and anything that is
//! not a rendering of a valid credential as [`LoadError::Corrupt`] — never a
//! partially populated credential.  The file I/O itself lives outside this
//! crate; these functions speak about the file's content.
use vstd::prelude::*;
use vstd::string::*;

verus! {

/// The persisted access credential: where the server lives, the client the
/// flow registered, and the bearer token the server granted, together with
/// the granted scopes.
#[derive(Debug, PartialEq, Eq)]
pub struct Credential {
    pub server_base_url: String,
    pub client_id: String,
    pub client_secret: String,
    pub access_token: String,
    pub granted_scopes: Vec<String>,
}

impl Clone for Credential {
    fn clone(&self) -> (r: Self)
        ensures
            r@ == self@,
    {
        let r = Credential {
            server_base_url: self.server_base_url.clone(),
            client_id: self.client_id.clone(),
            client_secret: self.client_secret.clone(),
            access_token: self.access_token.clone(),
            granted_scopes: self.granted_scopes.clone(),
        };
        proof {
            assert(r@.granted_scopes =~= self@.granted_scopes);
        }
        r
    }
}

/// Mathematical value of a credential.
pub struct CredentialView {
    pub server_base_url: Seq<char>,
    pub client_id: Seq<char>,
    pub client_secret: Seq<char>,
    pub access_token: Seq<char>,
    pub granted_scopes: Seq<Seq<char>>,
}

impl View for Credential {
    type V = CredentialView;

    open spec fn view(&self) -> CredentialView {
        CredentialView {
            server_base_url: self.server_base_url@,
            client_id: self.client_id@,
            client_secret: self.client_secret@,
            access_token: self.access_token@,
            granted_scopes: self.granted_scopes@.map_values(|s: String| s@),
        }
    }
}

/// Why loading a stored credential failed.
#[derive(Clone, Copy, Debug, PartialEq, Eq, Structural)]
pub enum LoadError {
    /// No credential is stored.  Expected on a first run; it triggers the
    /// authorization flow and is not an error of the store.
    NotFound,
    /// Something is stored but it is not a valid credential rendering.
    Corrupt,
}

/// Why saving the credential failed: the storage could not be written.
/// A failed save must not leave a half-written content behind for a later
/// load; the writer outside this crate writes the whole rendering or nothing.
#[derive(Clone, Copy, Debug, PartialEq, Eq, Structural)]
pub enum StoreError {
    Io,
}

/// A field value that can be persisted: non-empty and free of the line
/// terminator the encoding uses.
pub open spec fn field_ok(s: Seq<char>) -> bool {
    s.len() > 0 && !s.contains('\n')
}

/// A credential the store accepts: every field present and persistable.
pub open spec fn valid_credential(c: CredentialView) -> bool {
    &&& field_ok(c.server_base_url)
    &&& field_ok(c.client_id)
    &&& field_ok(c.client_secret)
    &&& field_ok(c.access_token)
    &&& forall|i: int| 0 <= i < c.granted_scopes.len() ==> field_ok(#[trigger] c.granted_scopes[i])
}

pub open spec fn key_server_base_url() -> Seq<char> {
    "server_base_url"@
}

pub open spec fn key_client_id() -> Seq<char> {
    "client_id"@
}

pub open spec fn key_client_secret() -> Seq<char> {
    "client_secret"@
}

pub open spec fn key_access_token() -> Seq<char> {
    "access_token"@
}

pub open spec fn key_scope() -> Seq<char> {
    "scope"@
}

/// A key the encoding may use: non-empty and free of the two delimiters, so
/// that a rendered line can be split again unambiguously.
pub open spec fn key_ok(k: Seq<char>) -> bool {
    k.len() > 0 && !k.contains('\n') && !k.contains('=')
}

/// All five keys of the encoding are well-formed.
pub proof fn lemma_keys_ok()
    ensures
        key_ok(key_server_base_url()),
        key_ok(key_client_id()),
        key_ok(key_client_secret()),
        key_ok(key_access_token()),
        key_ok(key_scope()),
{
    reveal_strlit("server_base_url");
    reveal_strlit("client_id");
    reveal_strlit("client_secret");
    reveal_strlit("access_token");
    reveal_strlit("scope");
}

/// One rendered line: the key, `=`, the value, and the line terminator.
pub open spec fn line_spec(key: Seq<char>, value: Seq<char>) -> Seq<char> {
    key + seq!['='] + value + seq!['\n']
}

/// The scope lines, one per granted scope, in order.
pub open spec fn scope_lines_spec(scopes: Seq<Seq<char>>) -> Seq<char>
    decreases scopes.len(),
{
    if scopes.len() == 0 {
        Seq::empty()
    } else {
        line_spec(key_scope(), scopes[0]) + scope_lines_spec(scopes.drop_first())
    }
}

/// The full rendered content of a credential: the four fixed fields in a
/// fixed order, then the scope lines.
pub open spec fn render_spec(c: CredentialView) -> Seq<char> {
    line_spec(key_server_base_url(), c.server_base_url) + line_spec(key_client_id(), c.client_id)
        + line_spec(key_client_secret(), c.client_secret) + line_spec(
        key_access_token(),
        c.access_token,
    ) + scope_lines_spec(c.granted_scopes)
}

/// Position of the first occurrence of `target` in `s` at or after `i`, or
/// `s.len()` if there is none.
pub open spec fn find_from(s: Seq<char>, target: char, i: nat) -> nat
    decreases s.len() - i,
{
    if i >= s.len() {
        s.len()
    } else if s[i as int] == target {
        i
    } else {
        find_from(s, target, i + 1)
    }
}

/// What `find_from` returns: the least index at or after `i` holding
/// `target`, or the length when no such index exists.
pub proof fn lemma_find_from(s: Seq<char>, target: char, i: nat)
    requires
        i <= s.len(),
    ensures
        i <= find_from(s, target, i) <= s.len(),
        find_from(s, target, i) < s.len() ==> s[find_from(s, target, i) as int] == target,
        forall|k: int| i <= k < find_from(s, target, i) ==> s[k] != target,
        find_from(s, target, i) == s.len() ==> forall|k: int| i <= k < s.len() ==> s[k] != target,
    decreases s.len() - i,
{
    if i >= s.len() {
    } else if s[i as int] == target {
    } else {
        lemma_find_from(s, target, i + 1);
    }
}

/// `find_from` returns exactly a given witness position whose predecessors
/// from the start of the search are all free of the target.
pub proof fn lemma_find_from_is(s: Seq<char>, target: char, i: nat, j: nat)
    requires
        i <= j < s.len(),
        s[j as int] == target,
        forall|k: int| i <= k < j ==> s[k] != target,
    ensures
        find_from(s, target, i) == j,
{
    lemma_find_from(s, target, i);
}

/// The `key=value` pairs of the content, line by line; `None` when a line is
/// unterminated or has no `=`.
pub open spec fn parse_pairs(s: Seq<char>) -> Option<Seq<(Seq<char>, Seq<char>)>>
    decreases s.len(),
{
    if s.len() == 0 {
        Option::Some(Seq::empty())
    } else {
        let j = find_from(s, '\n', 0);
        if j >= s.len() {
            Option::None
        } else {
            let line = s.subrange(0, j as int);
            let rest = s.subrange(j as int + 1, s.len() as int);
            let k = find_from(line, '=', 0);
            if k >= line.len() {
                Option::None
            } else {
                match parse_pairs(rest) {
                    Option::None => Option::None,
                    Option::Some(tail) => Option::Some(
                        seq![
                            (line.subrange(0, k as int), line.subrange(k as int + 1, line.len() as int)),
                        ] + tail,
                    ),
                }
            }
        }
    }
}

/// The credential a pair list describes: the four fixed keys in order, every
/// further line a scope, every value persistable — otherwise nothing.
pub open spec fn pairs_to_credential(ps: Seq<(Seq<char>, Seq<char>)>) -> Option<CredentialView> {
    if ps.len() >= 4 && ps[0].0 == key_server_base_url() && ps[1].0 == key_client_id()
        && ps[2].0 == key_client_secret() && ps[3].0 == key_access_token() && field_ok(ps[0].1)
        && field_ok(ps[1].1) && field_ok(ps[2].1) && field_ok(ps[3].1) && (forall|i: int|
        4 <= i < ps.len() ==> (#[trigger] ps[i]).0 == key_scope() && field_ok(ps[i].1)) {
        Option::Some(
            CredentialView {
                server_base_url: ps[0].1,
                client_id: ps[1].1,
                client_secret: ps[2].1,
                access_token: ps[3].1,
                granted_scopes: ps.subrange(4, ps.len() as int).map_values(
                    |p: (Seq<char>, Seq<char>)| p.1,
                ),
            },
        )
    } else {
        Option::None
    }
}

/// The credential a whole file content describes, if any.
pub open spec fn parse_spec(s: Seq<char>) -> Option<CredentialView> {
    match parse_pairs(s) {
        Option::None => Option::None,
        Option::Some(ps) => pairs_to_credential(ps),
    }
}

/// Splitting one well-formed line off the front of a content: parsing
/// `key=value\n` followed by `rest` yields the pair `(key, value)` in front
/// of whatever `rest` yields.
pub proof fn lemma_parse_pairs_line(key: Seq<char>, value: Seq<char>, rest: Seq<char>)
    requires
        key_ok(key),
        !value.contains('\n'),
    ensures
        parse_pairs(line_spec(key, value) + rest) == (match parse_pairs(rest) {
            Option::None => Option::None::<Seq<(Seq<char>, Seq<char>)>>,
            Option::Some(tail) => Option::Some(seq![(key, value)] + tail),
        }),
{
    let s = line_spec(key, value) + rest;
    let line = key + seq!['='] + value;
    let n = line.len();
    assert(s =~= line + seq!['\n'] + rest);
    assert(s[n as int] == '\n');
    assert forall|k: int| 0 <= k < n implies s[k] != '\n' by {
        if k < key.len() {
            assert(s[k] == key[k]);
        } else if k == key.len() {
            assert(s[k] == '=');
        } else {
            assert(s[k] == value[k - key.len() - 1]);
        }
    }
    lemma_find_from_is(s, '\n', 0, n);
    assert(s.subrange(0, n as int) =~= line);
    assert(s.subrange(n as int + 1, s.len() as int) =~= rest);
    assert(line[key.len() as int] == '=');
    assert forall|k: int| 0 <= k < key.len() implies line[k] != '=' by {
        assert(line[k] == key[k]);
    }
    lemma_find_from_is(line, '=', 0, key.len());
    assert(line.subrange(0, key.len() as int) =~= key);
    assert(line.subrange(key.len() as int + 1, line.len() as int) =~= value);
}

/// The scope lines of a persistable scope list parse back to exactly one
/// `scope` pair per scope, in order.
pub proof fn lemma_parse_scope_lines(scopes: Seq<Seq<char>>)
    requires
        forall|i: int| 0 <= i < scopes.len() ==> field_ok(#[trigger] scopes[i]),
    ensures
        parse_pairs(scope_lines_spec(scopes)) == Option::Some(
            scopes.map_values(|v: Seq<char>| (key_scope(), v)),
        ),
    decreases scopes.len(),
{
    lemma_keys_ok();
    let f = |v: Seq<char>| (key_scope(), v);
    if scopes.len() == 0 {
        assert(scopes.map_values(f) =~= Seq::<(Seq<char>, Seq<char>)>::empty());
    } else {
        let tail = scopes.drop_first();
        assert forall|i: int| 0 <= i < tail.len() implies field_ok(#[trigger] tail[i]) by {
            assert(tail[i] == scopes[i + 1]);
        }
        lemma_parse_scope_lines(tail);
        lemma_parse_pairs_line(key_scope(), scopes[0], scope_lines_spec(tail));
        assert(seq![(key_scope(), scopes[0])] + tail.map_values(f) =~= scopes.map_values(f));
    }
}

/// The pair list a valid credential renders to.
pub open spec fn credential_pairs(c: CredentialView) -> Seq<(Seq<char>, Seq<char>)> {
    seq![
        (key_server_base_url(), c.server_base_url),
        (key_client_id(), c.client_id),
        (key_client_secret(), c.client_secret),
        (key_access_token(), c.access_token),
    ] + c.granted_scopes.map_values(|v: Seq<char>| (key_scope(), v))
}

/// The rendering of a valid credential splits back into exactly its pairs.
pub proof fn lemma_parse_pairs_render(c: CredentialView)
    requires
        valid_credential(c),
    ensures
        parse_pairs(render_spec(c)) == Option::Some(credential_pairs(c)),
{
    lemma_keys_ok();
    let f = |v: Seq<char>| (key_scope(), v);
    let r4 = scope_lines_spec(c.granted_scopes);
    let s3 = line_spec(key_access_token(), c.access_token) + r4;
    let s2 = line_spec(key_client_secret(), c.client_secret) + s3;
    let s1 = line_spec(key_client_id(), c.client_id) + s2;
    let s0 = line_spec(key_server_base_url(), c.server_base_url) + s1;
    assert(render_spec(c) =~= s0);
    lemma_parse_scope_lines(c.granted_scopes);
    lemma_parse_pairs_line(key_access_token(), c.access_token, r4);
    lemma_parse_pairs_line(key_client_secret(), c.client_secret, s3);
    lemma_parse_pairs_line(key_client_id(), c.client_id, s2);
    lemma_parse_pairs_line(key_server_base_url(), c.server_base_url, s1);
    assert(seq![(key_server_base_url(), c.server_base_url)] + (seq![(key_client_id(), c.client_id)]
        + (seq![(key_client_secret(), c.client_secret)] + (seq![
        (key_access_token(), c.access_token),
    ] + c.granted_scopes.map_values(f)))) =~= credential_pairs(c));
}

/// The pairs of a valid credential describe exactly that credential.
pub proof fn lemma_pairs_to_credential_of_render(c: CredentialView)
    requires
        valid_credential(c),
    ensures
        pairs_to_credential(credential_pairs(c)) == Option::Some(c),
{
    lemma_keys_ok();
    let ps = credential_pairs(c);
    let f = |v: Seq<char>| (key_scope(), v);
    assert(ps.len() == 4 + c.granted_scopes.len());
    assert forall|i: int| 4 <= i < ps.len() implies (#[trigger] ps[i]).0 == key_scope() && field_ok(
        ps[i].1,
    ) by {
        assert(ps[i] == c.granted_scopes.map_values(f)[i - 4]);
        assert(c.granted_scopes.map_values(f)[i - 4] == f(c.granted_scopes[i - 4]));
    }
    let got = pairs_to_credential(ps);
    assert(got is Some);
    assert(ps.subrange(4, ps.len() as int).map_values(|p: (Seq<char>, Seq<char>)| p.1)
        =~= c.granted_scopes) by {
        let sub = ps.subrange(4, ps.len() as int);
        assert forall|i: int| 0 <= i < sub.len() implies sub.map_values(
            |p: (Seq<char>, Seq<char>)| p.1,
        )[i] == c.granted_scopes[i] by {
            assert(sub[i] == ps[i + 4]);
            assert(ps[i + 4] == f(c.granted_scopes[i]));
        }
    }
}

/// Round trip of the store: the rendering of a valid credential loads back
/// to exactly that credential, field for field.
pub proof fn lemma_render_parse_round_trip(c: CredentialView)
    requires
        valid_credential(c),
    ensures
        parse_spec(render_spec(c)) == Option::Some(c),
{
    lemma_parse_pairs_render(c);
    lemma_pairs_to_credential_of_render(c);
}

/// Whatever parses is a valid credential: no partially populated or
/// unpersistable credential ever comes out of the store.
pub proof fn lemma_parse_spec_valid(s: Seq<char>)
    ensures
        parse_spec(s) matches Option::Some(c) ==> valid_credential(c),
{
    if parse_spec(s) is Some {
        let ps = parse_pairs(s)->Some_0;
        let c = pairs_to_credential(ps)->Some_0;
        assert forall|i: int| 0 <= i < c.granted_scopes.len() implies field_ok(
            #[trigger] c.granted_scopes[i],
        ) by {
            assert(c.granted_scopes[i] == ps.subrange(4, ps.len() as int)[i].1);
            assert(ps.subrange(4, ps.len() as int)[i] == ps[i + 4]);
        }
    }
}

/// Appending one scope renders as the old scope lines followed by one more
/// line.
pub proof fn lemma_scope_lines_push(scopes: Seq<Seq<char>>, v: Seq<char>)
    ensures
        scope_lines_spec(scopes.push(v)) == scope_lines_spec(scopes) + line_spec(key_scope(), v),
    decreases scopes.len(),
{
    reveal_with_fuel(scope_lines_spec, 3);
    if scopes.len() == 0 {
        assert(scopes.push(v)[0] == v);
        assert(scopes.push(v).drop_first() =~= Seq::<Seq<char>>::empty());
        assert(scope_lines_spec(scopes.push(v)) =~= scope_lines_spec(scopes) + line_spec(
            key_scope(),
            v,
        ));
    } else {
        assert(scopes.push(v).drop_first() =~= scopes.drop_first().push(v));
        lemma_scope_lines_push(scopes.drop_first(), v);
        assert(scopes.push(v)[0] == scopes[0]);
        assert(scope_lines_spec(scopes.push(v)) =~= scope_lines_spec(scopes) + line_spec(
            key_scope(),
            v,
        ));
    }
}

/// First position of `target` in `s` at or after `start`, or the length of
/// `s` when it does not occur there.
fn find_char_from(s: &str, target: char, start: usize) -> (r: usize)
    requires
        start <= s@.len(),
    ensures
        r == find_from(s@, target, start as nat),
{
    let len = s.unicode_len();
    let mut i = start;
    while i < len
        invariant
            start <= i <= len,
            len == s@.len(),
            forall|k: int| start <= k < i ==> s@[k] != target,
        decreases len - i,
    {
        if s.get_char(i) == target {
            proof {
                lemma_find_from_is(s@, target, start as nat, i as nat);
            }
            return i;
        }
        i = i + 1;
    }
    proof {
        lemma_find_from(s@, target, start as nat);
    }
    len
}

/// Whether `target` occurs in `s`.
fn contains_char(s: &str, target: char) -> (b: bool)
    ensures
        b == s@.contains(target),
{
    proof {
        lemma_find_from(s@, target, 0);
    }
    let pos = find_char_from(s, target, 0);
    if pos < s.unicode_len() {
        proof {
            assert(s@[pos as int] == target);
        }
        true
    } else {
        proof {
            assert forall|k: int| 0 <= k < s@.len() implies s@[k] != target by {}
        }
        false
    }
}

/// Whether `v` can be persisted as a field value.
pub fn persistable_field(v: &String) -> (b: bool)
    ensures
        b == field_ok(v@),
{
    !v.as_str().is_empty() && !contains_char(v.as_str(), '\n')
}

/// Mathematical value of an executable pair list.
pub open spec fn pairs_view(v: Seq<(String, String)>) -> Seq<(Seq<char>, Seq<char>)> {
    v.map_values(|p: (String, String)| (p.0@, p.1@))
}

/// Splits a content into its `key=value` lines, exactly as [`parse_pairs`]
/// describes it.
fn split_pairs(s: &str) -> (r: Option<Vec<(String, String)>>)
    ensures
        match r {
            Option::None => parse_pairs(s@) is None,
            Option::Some(v) => parse_pairs(s@) == Option::Some(pairs_view(v@)),
        },
{
    let len = s.unicode_len();
    let mut pairs: Vec<(String, String)> = Vec::new();
    let mut i: usize = 0;
    proof {
        assert(s@.subrange(0, s@.len() as int) =~= s@);
        assert(pairs_view(pairs@) =~= Seq::<(Seq<char>, Seq<char>)>::empty());
        if parse_pairs(s@) is Some {
            let t = parse_pairs(s@)->Some_0;
            assert(pairs_view(pairs@) + t =~= t);
        }
    }
    while i < len
        invariant
            i <= len,
            len == s@.len(),
            ({
                let rem = s@.subrange(i as int, s@.len() as int);
                match parse_pairs(rem) {
                    Option::None => parse_pairs(s@) is None,
                    Option::Some(t) => parse_pairs(s@) == Option::Some(pairs_view(pairs@) + t),
                }
            }),
        decreases len - i,
    {
        let ghost rem = s@.subrange(i as int, s@.len() as int);
        let j = find_char_from(s, '\n', i);
        proof {
            lemma_find_from(s@, '\n', i as nat);
        }
        if j == len {
            proof {
                assert forall|m: int| 0 <= m < rem.len() implies rem[m] != '\n' by {
                    assert(rem[m] == s@[i + m]);
                }
                lemma_find_from(rem, '\n', 0);
                assert(parse_pairs(rem) is None);
            }
            return Option::None;
        }
        let ghost line = rem.subrange(0, j as int - i as int);
        proof {
            assert(rem[j as int - i as int] == s@[j as int]);
            assert forall|m: int| 0 <= m < j - i implies rem[m] != '\n' by {
                assert(rem[m] == s@[i + m]);
            }
            lemma_find_from_is(rem, '\n', 0, (j - i) as nat);
        }
        let k = find_char_from(s, '=', i);
        proof {
            lemma_find_from(s@, '=', i as nat);
        }
        if k >= j {
            proof {
                assert forall|m: int| 0 <= m < line.len() implies line[m] != '=' by {
                    assert(line[m] == s@[i + m]);
                }
                lemma_find_from(line, '=', 0);
                assert(parse_pairs(rem) is None);
            }
            return Option::None;
        }
        let key = s.substring_char(i, k).to_owned();
        let value = s.substring_char(k + 1, j).to_owned();
        let ghost pairs_old = pairs@;
        proof {
            assert(line[k as int - i as int] == s@[k as int]);
            assert forall|m: int| 0 <= m < k - i implies line[m] != '=' by {
                assert(line[m] == s@[i + m]);
            }
            lemma_find_from_is(line, '=', 0, (k - i) as nat);
            assert(line.subrange(0, k as int - i as int) =~= key@);
            assert(line.subrange(k as int - i as int + 1, line.len() as int) =~= value@);
            let rem2 = s@.subrange(j as int + 1, s@.len() as int);
            assert(rem.subrange(j as int - i as int + 1, rem.len() as int) =~= rem2);
        }
        pairs.push((key, value));
        proof {
            let rem2 = s@.subrange(j as int + 1, s@.len() as int);
            if parse_pairs(rem2) is Some {
                let t2 = parse_pairs(rem2)->Some_0;
                assert(parse_pairs(rem) == Option::Some(seq![(key@, value@)] + t2));
                assert(pairs_view(pairs@) =~= pairs_view(pairs_old) + seq![(key@, value@)]);
                assert(pairs_view(pairs_old) + (seq![(key@, value@)] + t2) =~= pairs_view(pairs@)
                    + t2);
            } else {
                assert(parse_pairs(rem) is None);
            }
        }
        i = j + 1;
    }
    proof {
        let rem = s@.subrange(len as int, s@.len() as int);
        assert(rem =~= Seq::<char>::empty());
        assert(parse_pairs(rem) == Option::Some(Seq::<(Seq<char>, Seq<char>)>::empty()));
        if parse_pairs(s@) is Some {
            assert(pairs_view(pairs@) + Seq::<(Seq<char>, Seq<char>)>::empty() =~= pairs_view(
                pairs@,
            ));
        }
    }
    Option::Some(pairs)
}

/// Checks a pair list and assembles the credential it describes, exactly as
/// [`pairs_to_credential`] describes it.
#[verifier::loop_isolation(false)]
fn credential_from_pairs(pairs: &Vec<(String, String)>) -> (r: Option<Credential>)
    ensures
        match r {
            Option::None => pairs_to_credential(pairs_view(pairs@)) is None,
            Option::Some(c) => pairs_to_credential(pairs_view(pairs@)) == Option::Some(c@),
        },
{
    let ghost ps = pairs_view(pairs@);
    proof {
        assert(ps.len() == pairs@.len());
        assert forall|t: int| 0 <= t < pairs@.len() implies #[trigger] ps[t] == (
            pairs@[t].0@,
            pairs@[t].1@,
        ) by {}
    }
    if pairs.len() < 4 {
        return Option::None;
    }
    let key_sbu = String::from_str("server_base_url");
    let key_cid = String::from_str("client_id");
    let key_csec = String::from_str("client_secret");
    let key_tok = String::from_str("access_token");
    let key_sc = String::from_str("scope");
    if !pairs[0].0.eq(&key_sbu) || !pairs[1].0.eq(&key_cid) || !pairs[2].0.eq(&key_csec)
        || !pairs[3].0.eq(&key_tok) {
        return Option::None;
    }
    if !persistable_field(&pairs[0].1) || !persistable_field(&pairs[1].1) || !persistable_field(
        &pairs[2].1,
    ) || !persistable_field(&pairs[3].1) {
        return Option::None;
    }
    let mut scopes: Vec<String> = Vec::new();
    let mut idx: usize = 4;
    while idx < pairs.len()
        invariant
            4 <= idx <= pairs.len(),
            forall|t: int|
                4 <= t < idx ==> (#[trigger] ps[t]).0 == key_scope() && field_ok(ps[t].1),
            scopes@.len() == idx - 4,
            forall|t: int| 0 <= t < scopes@.len() ==> (#[trigger] scopes@[t])@ == ps[4 + t].1,
        decreases pairs.len() - idx,
    {
        if !pairs[idx].0.eq(&key_sc) {
            proof {
                assert(4 <= idx < ps.len() && (ps[idx as int]).0 != key_scope());
            }
            return Option::None;
        }
        if !persistable_field(&pairs[idx].1) {
            proof {
                assert(4 <= idx < ps.len() && !field_ok(ps[idx as int].1));
            }
            return Option::None;
        }
        scopes.push(pairs[idx].1.clone());
        idx = idx + 1;
    }
    let c = Credential {
        server_base_url: pairs[0].1.clone(),
        client_id: pairs[1].1.clone(),
        client_secret: pairs[2].1.clone(),
        access_token: pairs[3].1.clone(),
        granted_scopes: scopes,
    };
    proof {
        assert(pairs_to_credential(ps) is Some);
        let expected = ps.subrange(4, ps.len() as int).map_values(
            |p: (Seq<char>, Seq<char>)| p.1,
        );
        assert forall|t: int| 0 <= t < c@.granted_scopes.len() implies c@.granted_scopes[t]
            == expected[t] by {
            assert(c@.granted_scopes[t] == scopes@[t]@);
            assert(ps.subrange(4, ps.len() as int)[t] == ps[4 + t]);
        }
        assert(c@.granted_scopes =~= expected);
    }
    Option::Some(c)
}

/// Whether every field of `c` can be persisted; only such credentials are
/// accepted by [`render_credential`].
pub fn credential_is_valid(c: &Credential) -> (b: bool)
    ensures
        b == valid_credential(c@),
{
    if !persistable_field(&c.server_base_url) || !persistable_field(&c.client_id)
        || !persistable_field(&c.client_secret) || !persistable_field(&c.access_token) {
        return false;
    }
    let mut i: usize = 0;
    while i < c.granted_scopes.len()
        invariant
            i <= c.granted_scopes.len(),
            forall|t: int| 0 <= t < i ==> field_ok(#[trigger] c@.granted_scopes[t]),
            field_ok(c@.server_base_url),
            field_ok(c@.client_id),
            field_ok(c@.client_secret),
            field_ok(c@.access_token),
        decreases c.granted_scopes.len() - i,
    {
        if !persistable_field(&c.granted_scopes[i]) {
            proof {
                assert(c@.granted_scopes[i as int] == c.granted_scopes@[i as int]@);
            }
            return false;
        }
        i = i + 1;
    }
    true
}

/// Reads the credential out of the stored content: an absent content is
/// [`LoadError::NotFound`], a content that is not a valid credential
/// rendering is [`LoadError::Corrupt`], and a successful load returns the
/// credential the content describes — always fully populated and valid.
pub fn load_credential(content: Option<&str>) -> (r: Result<Credential, LoadError>)
    ensures
        content is None ==> r == Result::<Credential, LoadError>::Err(LoadError::NotFound),
        content matches Some(s) ==> match parse_spec(s@) {
            Option::None => r == Result::<Credential, LoadError>::Err(LoadError::Corrupt),
            Option::Some(cv) => r matches Ok(c) && c@ == cv,
        },
        r matches Ok(c) ==> valid_credential(c@),
{
    match content {
        Option::None => Err(LoadError::NotFound),
        Option::Some(s) => {
            proof {
                lemma_parse_spec_valid(s@);
            }
            match split_pairs(s) {
                Option::None => Err(LoadError::Corrupt),
                Option::Some(pairs) => match credential_from_pairs(&pairs) {
                    Option::None => Err(LoadError::Corrupt),
                    Option::Some(c) => Ok(c),
                },
            }
        },
    }
}

/// Renders the content that saving `c` writes: exactly [`render_spec`].
pub fn render_credential(c: &Credential) -> (out: String)
    requires
        valid_credential(c@),
    ensures
        out@ == render_spec(c@),
{
    let ghost l1 = line_spec(key_server_base_url(), c@.server_base_url);
    let ghost l2 = line_spec(key_client_id(), c@.client_id);
    let ghost l3 = line_spec(key_client_secret(), c@.client_secret);
    let ghost l4 = line_spec(key_access_token(), c@.access_token);
    let mut out = String::new();
    out.append("server_base_url");
    out.append("=");
    out.append(c.server_base_url.as_str());
    out.append("\n");
    out.append("client_id");
    out.append("=");
    out.append(c.client_id.as_str());
    out.append("\n");
    out.append("client_secret");
    out.append("=");
    out.append(c.client_secret.as_str());
    out.append("\n");
    out.append("access_token");
    out.append("=");
    out.append(c.access_token.as_str());
    out.append("\n");
    proof {
        reveal_strlit("=");
        reveal_strlit("\n");
        assert("="@ =~= seq!['=']);
        assert("\n"@ =~= seq!['\n']);
        assert(out@ =~= l1 + l2 + l3 + l4 + scope_lines_spec(c@.granted_scopes.subrange(0, 0)));
    }
    let mut i: usize = 0;
    while i < c.granted_scopes.len()
        invariant
            i <= c.granted_scopes.len(),
            l1 == line_spec(key_server_base_url(), c@.server_base_url),
            l2 == line_spec(key_client_id(), c@.client_id),
            l3 == line_spec(key_client_secret(), c@.client_secret),
            l4 == line_spec(key_access_token(), c@.access_token),
            out@ == l1 + l2 + l3 + l4 + scope_lines_spec(c@.granted_scopes.subrange(0, i as int)),
        decreases c.granted_scopes.len() - i,
    {
        out.append("scope");
        out.append("=");
        out.append(c.granted_scopes[i].as_str());
        out.append("\n");
        proof {
            reveal_strlit("=");
            reveal_strlit("\n");
            assert("="@ =~= seq!['=']);
            assert("\n"@ =~= seq!['\n']);
            lemma_scope_lines_push(
                c@.granted_scopes.subrange(0, i as int),
                c@.granted_scopes[i as int],
            );
            assert(c@.granted_scopes.subrange(0, i as int).push(c@.granted_scopes[i as int])
                =~= c@.granted_scopes.subrange(0, i as int + 1));
            assert(c@.granted_scopes[i as int] == c.granted_scopes@[i as int]@);
            assert(out@ =~= l1 + l2 + l3 + l4 + scope_lines_spec(
                c@.granted_scopes.subrange(0, i as int + 1),
            ));
        }
        i = i + 1;
    }
    proof {
        assert(c@.granted_scopes.subrange(0, c.granted_scopes@.len() as int)
            =~= c@.granted_scopes);
        assert(out@ =~= render_spec(c@));
    }
    out
}

} // verus!

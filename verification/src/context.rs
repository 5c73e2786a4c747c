//! The parsed security-context value type and its string codec.
//!
//! A context is four ordered text fields, `user:role:type:range`. Parsing
//! splits the source text on colons: the first three components become
//! `user`, `role` and `type`, and everything after the third colon — which
//! may itself contain colons, as a multi-level-security range does — is the
//! `range`. Texts with fewer than three components are rejected, and so are
//! texts whose user, role or type component is empty: every parsed context
//! has those three fields non-empty, while the range may be empty.
//! Serialization always writes all three colons, so a context with an empty
//! range serializes with a trailing colon; that canonical form parses back to
//! the same value.

use vstd::prelude::*;

verus! {

/// Index of the first colon in `s`, or -1 when `s` holds none.
pub open spec fn first_colon(s: Seq<char>) -> int
    decreases s.len(),
{
    if s.len() == 0 {
        -1
    } else if s[0] == ':' {
        0
    } else if first_colon(s.drop_first()) < 0 {
        -1
    } else {
        first_colon(s.drop_first()) + 1
    }
}

/// What `first_colon` finds: -1 means no colon at all, and a nonnegative
/// result is the position of the leftmost colon.
pub proof fn lemma_first_colon(s: Seq<char>)
    ensures
        first_colon(s) < 0 ==> forall|j: int| 0 <= j < s.len() ==> s[j] != ':',
        first_colon(s) >= 0 ==> first_colon(s) < s.len(),
        first_colon(s) >= 0 ==> s[first_colon(s)] == ':',
        first_colon(s) >= 0 ==> forall|j: int| 0 <= j < first_colon(s) ==> s[j] != ':',
    decreases s.len(),
{
    if s.len() == 0 {
    } else if s[0] == ':' {
    } else {
        lemma_first_colon(s.drop_first());
        if first_colon(s.drop_first()) < 0 {
            assert forall|j: int| 0 <= j < s.len() implies s[j] != ':' by {
                if j > 0 {
                    assert(s[j] == s.drop_first()[j - 1]);
                }
            }
        } else {
            assert forall|j: int| 0 <= j < first_colon(s) implies s[j] != ':' by {
                if j > 0 {
                    assert(s[j] == s.drop_first()[j - 1]);
                }
            }
        }
    }
}

/// The position of the leftmost colon determines `first_colon` exactly.
pub proof fn lemma_first_colon_at(s: Seq<char>, i: int)
    requires
        0 <= i < s.len(),
        s[i] == ':',
        forall|j: int| 0 <= j < i ==> s[j] != ':',
    ensures
        first_colon(s) == i,
    decreases s.len(),
{
    if i == 0 {
    } else {
        assert(s[0] != ':');
        assert(s.drop_first()[i - 1] == s[i]);
        assert forall|j: int| 0 <= j < i - 1 implies s.drop_first()[j] != ':' by {
            assert(s.drop_first()[j] == s[j + 1]);
        }
        lemma_first_colon_at(s.drop_first(), i - 1);
    }
}

/// The colon-separated components of `s`, in order. Every text has at least
/// one component; each component is free of colons.
pub open spec fn spec_split(s: Seq<char>) -> Seq<Seq<char>>
    decreases s.len(),
    via spec_split_decreases
{
    if first_colon(s) < 0 {
        seq![s]
    } else {
        seq![s.take(first_colon(s))] + spec_split(s.skip(first_colon(s) + 1))
    }
}

#[via_fn]
proof fn spec_split_decreases(s: Seq<char>) {
    lemma_first_colon(s);
}

/// The components rejoined, with a colon between each adjacent pair.
pub open spec fn spec_join(parts: Seq<Seq<char>>) -> Seq<char>
    decreases parts.len(),
{
    if parts.len() == 0 {
        Seq::<char>::empty()
    } else if parts.len() == 1 {
        parts[0]
    } else {
        parts[0] + seq![':'] + spec_join(parts.drop_first())
    }
}

/// Splitting always yields at least one component.
pub proof fn lemma_split_len(s: Seq<char>)
    ensures
        spec_split(s).len() >= 1,
{
    if first_colon(s) < 0 {
    } else {
    }
}

/// A text with no colon splits into the single component that is the text
/// itself.
pub proof fn lemma_split_single(s: Seq<char>)
    requires
        forall|j: int| 0 <= j < s.len() ==> s[j] != ':',
    ensures
        spec_split(s) == seq![s],
{
    lemma_first_colon(s);
    if first_colon(s) >= 0 {
        assert(s[first_colon(s)] != ':');
    }
}

/// Splitting a text whose leftmost colon stands at `i` yields the prefix
/// before `i` followed by the components of the suffix after `i`.
pub proof fn lemma_split_step(s: Seq<char>, i: int)
    requires
        0 <= i < s.len(),
        s[i] == ':',
        forall|j: int| 0 <= j < i ==> s[j] != ':',
    ensures
        spec_split(s) == seq![s.take(i)] + spec_split(s.skip(i + 1)),
{
    lemma_first_colon_at(s, i);
}

/// Rejoining the components of any text reproduces the text exactly.
pub proof fn lemma_join_split(s: Seq<char>)
    ensures
        spec_join(spec_split(s)) == s,
    decreases s.len(),
{
    lemma_first_colon(s);
    if first_colon(s) < 0 {
    } else {
        let i = first_colon(s);
        lemma_join_split(s.skip(i + 1));
        lemma_split_len(s.skip(i + 1));
        let rest = spec_split(s.skip(i + 1));
        assert((seq![s.take(i)] + rest).drop_first() =~= rest);
        assert((seq![s.take(i)] + rest)[0] == s.take(i));
        assert(s.take(i) + seq![':'] + s.skip(i + 1) =~= s);
    }
}

/// Splitting a colon-free prefix, a colon, and an arbitrary remainder yields
/// the prefix as the first component, then the remainder's components.
pub proof fn lemma_split_prefix(u: Seq<char>, rest: Seq<char>)
    requires
        forall|j: int| 0 <= j < u.len() ==> u[j] != ':',
    ensures
        spec_split(u + seq![':'] + rest) == seq![u] + spec_split(rest),
{
    let s = u + seq![':'] + rest;
    let n = u.len() as int;
    assert(s[n] == ':');
    assert forall|j: int| 0 <= j < n implies s[j] != ':' by {
        assert(s[j] == u[j]);
    }
    lemma_split_step(s, n);
    assert(s.take(n) =~= u);
    assert(s.skip(n + 1) =~= rest);
}

/// The number of colons in `s`.
pub open spec fn colon_count(s: Seq<char>) -> nat
    decreases s.len(),
{
    if s.len() == 0 {
        0
    } else if s[0] == ':' {
        colon_count(s.drop_first()) + 1
    } else {
        colon_count(s.drop_first())
    }
}

/// A text free of colons has colon count zero.
proof fn lemma_colon_count_zero(s: Seq<char>)
    requires
        forall|j: int| 0 <= j < s.len() ==> s[j] != ':',
    ensures
        colon_count(s) == 0,
    decreases s.len(),
{
    if s.len() > 0 {
        assert forall|j: int| 0 <= j < s.drop_first().len() implies s.drop_first()[j] != ':' by {
            assert(s.drop_first()[j] == s[j + 1]);
        }
        lemma_colon_count_zero(s.drop_first());
    }
}

/// Colon counts add up over concatenation.
proof fn lemma_colon_count_append(a: Seq<char>, b: Seq<char>)
    ensures
        colon_count(a + b) == colon_count(a) + colon_count(b),
    decreases a.len(),
{
    if a.len() == 0 {
        assert(a + b =~= b);
    } else {
        assert((a + b)[0] == a[0]);
        assert((a + b).drop_first() =~= a.drop_first() + b);
        lemma_colon_count_append(a.drop_first(), b);
    }
}

/// Law: a text always splits into one component more than it has colons, so
/// parsing demands at least two colons.
pub proof fn lemma_split_count(s: Seq<char>)
    ensures
        spec_split(s).len() == colon_count(s) + 1,
    decreases s.len(),
{
    lemma_first_colon(s);
    if first_colon(s) < 0 {
        lemma_colon_count_zero(s);
    } else {
        let i = first_colon(s);
        lemma_split_count(s.skip(i + 1));
        assert(s =~= s.take(i) + seq![':'] + s.skip(i + 1));
        lemma_colon_count_append(s.take(i) + seq![':'], s.skip(i + 1));
        lemma_colon_count_append(s.take(i), seq![':']);
        assert forall|j: int| 0 <= j < s.take(i).len() implies s.take(i)[j] != ':' by {
            assert(s.take(i)[j] == s[j]);
        }
        lemma_colon_count_zero(s.take(i));
        assert(colon_count(seq![':']) == 1) by {
            assert(seq![':'].drop_first() =~= Seq::<char>::empty());
            assert(colon_count(seq![':'].drop_first()) == 0);
        }
    }
}

/// The mathematical value of a context: its four fields as character
/// sequences.
#[verifier::ext_equal]
pub ghost struct ContextView {
    pub user: Seq<char>,
    pub role: Seq<char>,
    pub _type: Seq<char>,
    pub range: Seq<char>,
}

/// The canonical serialized form of a context: the three leading fields and
/// the range, each pair separated by a colon. The three colons are always
/// written, so an empty range leaves a trailing colon.
pub open spec fn spec_text(c: ContextView) -> Seq<char> {
    c.user + seq![':'] + c.role + seq![':'] + c._type + seq![':'] + c.range
}

/// The value parsed from `s`: the first three colon-separated components as
/// `user`, `role` and `type`, and the remaining components rejoined as the
/// `range`. Absent when `s` has fewer than three components, and when its
/// user, role or type component is empty: a parsed context always has those
/// three fields non-empty.
pub open spec fn spec_parse(s: Seq<char>) -> Option<ContextView> {
    let parts = spec_split(s);
    if parts.len() >= 3 && parts[0].len() > 0 && parts[1].len() > 0 && parts[2].len() > 0 {
        Some(
            ContextView {
                user: parts[0],
                role: parts[1],
                _type: parts[2],
                range: spec_join(parts.skip(3)),
            },
        )
    } else {
        None
    }
}

/// Law: serializing what was parsed reproduces the source text exactly
/// whenever the text has at least four colon-separated components; with
/// exactly three components the canonical form is the source text with a
/// trailing colon appended for the empty range.
pub proof fn lemma_parse_then_text(s: Seq<char>)
    requires
        spec_parse(s) is Some,
    ensures
        spec_split(s).len() >= 4 ==> (spec_parse(s) matches Some(c) && spec_text(c) == s),
        spec_split(s).len() == 3 ==> (spec_parse(s) matches Some(c) && spec_text(c) == s
            + seq![':']),
    decreases s.len(),
{
    let parts = spec_split(s);
    lemma_join_split(s);
    let d1 = parts.drop_first();
    let d2 = d1.drop_first();
    let d3 = d2.drop_first();
    assert(spec_join(parts) == parts[0] + seq![':'] + spec_join(d1));
    assert(spec_join(d1) == d1[0] + seq![':'] + spec_join(d2));
    assert(d3 =~= parts.skip(3));
    let c = spec_parse(s)->Some_0;
    if parts.len() >= 4 {
        assert(spec_join(d2) == d2[0] + seq![':'] + spec_join(d3));
        assert(spec_text(c) =~= parts[0] + seq![':'] + (d1[0] + seq![':'] + (d2[0] + seq![':']
            + spec_join(d3))));
        assert(parts[0] + seq![':'] + (d1[0] + seq![':'] + (d2[0] + seq![':'] + spec_join(d3)))
            =~= spec_join(parts));
    } else {
        assert(spec_join(d2) == d2[0]);
        assert(d3.len() == 0);
        assert(spec_join(d3) == Seq::<char>::empty());
        assert(spec_text(c) =~= spec_join(parts) + seq![':']);
    }
}

/// Law: serializing any context whose user, role and type are non-empty and
/// free of colons and parsing the text back yields the same context. In
/// particular a context with an empty range round-trips through its
/// canonical trailing-colon form, and a range may itself contain colons.
pub proof fn lemma_text_then_parse(c: ContextView)
    requires
        c.user.len() > 0,
        c.role.len() > 0,
        c._type.len() > 0,
        forall|j: int| 0 <= j < c.user.len() ==> c.user[j] != ':',
        forall|j: int| 0 <= j < c.role.len() ==> c.role[j] != ':',
        forall|j: int| 0 <= j < c._type.len() ==> c._type[j] != ':',
    ensures
        spec_parse(spec_text(c)) == Some(c),
{
    let s = spec_text(c);
    let rest2 = c._type + seq![':'] + c.range;
    let rest1 = c.role + seq![':'] + rest2;
    assert(s =~= c.user + seq![':'] + rest1);
    lemma_split_prefix(c.user, rest1);
    lemma_split_prefix(c.role, rest2);
    lemma_split_prefix(c._type, c.range);
    lemma_join_split(c.range);
    lemma_split_len(c.range);
    let parts = spec_split(s);
    assert(parts == seq![c.user] + (seq![c.role] + (seq![c._type] + spec_split(c.range))));
    assert(parts.len() >= 3);
    assert(parts[0] == c.user);
    assert(parts[1] == c.role);
    assert(parts[2] == c._type);
    assert(parts.skip(3) =~= spec_split(c.range));
    assert(spec_parse(s)->Some_0 =~= c);
}

/// A security context as an independent value: four ordered text fields,
/// with no native-memory backing.
#[derive(Debug)]
pub struct Context {
    user: String,
    role: String,
    _type: String,
    range: String,
}

impl View for Context {
    type V = ContextView;

    closed spec fn view(&self) -> ContextView {
        ContextView { user: self.user@, role: self.role@, _type: self._type@, range: self.range@ }
    }
}

/// Index of the leftmost colon at or after `from`, if any.
fn find_colon(text: &str, from: usize, n: usize) -> (r: Option<usize>)
    requires
        n == text@.len(),
        from <= n,
    ensures
        r matches Some(i) ==> from <= i < n && text@[i as int] == ':' && (forall|j: int|
            from <= j < i ==> text@[j] != ':'),
        r is None ==> forall|j: int| from <= j < n ==> text@[j] != ':',
{
    let mut i = from;
    while i < n
        invariant
            from <= i <= n,
            n == text@.len(),
            forall|j: int| from <= j < i ==> text@[j] != ':',
        decreases n - i,
    {
        if text.get_char(i) == ':' {
            return Some(i);
        }
        i = i + 1;
    }
    None
}

impl Context {
    /// Parses a context from its textual form. Succeeds exactly when the text
    /// has at least three colon-separated components and the first three are
    /// all non-empty; the value is the one `spec_parse` gives, so a parsed
    /// context always carries non-empty user, role and type fields.
    pub fn new(text: &str) -> (r: Option<Context>)
        ensures
            r is Some <==> (spec_split(text@).len() >= 3 && spec_split(text@)[0].len() > 0
                && spec_split(text@)[1].len() > 0 && spec_split(text@)[2].len() > 0),
            r is Some <==> spec_parse(text@) is Some,
            r matches Some(c) ==> Some(c@) == spec_parse(text@),
            r matches Some(c) ==> c@.user.len() > 0 && c@.role.len() > 0 && c@._type.len() > 0,
            colon_count(text@) < 2 ==> r is None,
    {
        proof {
            lemma_split_count(text@);
        }
        let ghost s = text@;
        let n = text.unicode_len();
        let p1 = match find_colon(text, 0, n) {
            Some(i) => i,
            None => {
                proof {
                    lemma_split_single(s);
                }
                return None;
            },
        };
        proof {
            lemma_split_step(s, p1 as int);
        }
        let ghost s1 = s.skip(p1 + 1);
        let p2 = match find_colon(text, p1 + 1, n) {
            Some(i) => i,
            None => {
                proof {
                    assert forall|j: int| 0 <= j < s1.len() implies s1[j] != ':' by {
                        assert(s1[j] == s[p1 + 1 + j]);
                    }
                    lemma_split_single(s1);
                    assert(spec_split(s).len() == 2);
                }
                return None;
            },
        };
        proof {
            assert(s1[p2 - p1 - 1] == s[p2 as int]);
            assert forall|j: int| 0 <= j < p2 - p1 - 1 implies s1[j] != ':' by {
                assert(s1[j] == s[p1 + 1 + j]);
            }
            lemma_split_step(s1, p2 - p1 - 1);
        }
        let ghost s2 = s.skip(p2 + 1);
        proof {
            assert(s1.skip(p2 - p1 - 1 + 1) =~= s2);
            assert(s1.take(p2 - p1 - 1) =~= s.subrange(p1 + 1, p2 as int));
        }
        let user = String::from_str(text.substring_char(0, p1));
        let role = String::from_str(text.substring_char(p1 + 1, p2));
        match find_colon(text, p2 + 1, n) {
            None => {
                let field = String::from_str(text.substring_char(p2 + 1, n));
                let range = String::new();
                proof {
                    assert forall|j: int| 0 <= j < s2.len() implies s2[j] != ':' by {
                        assert(s2[j] == s[p2 + 1 + j]);
                    }
                    lemma_split_single(s2);
                    assert(spec_split(s) =~= seq![
                        s.subrange(0, p1 as int),
                        s.subrange(p1 + 1, p2 as int),
                        s2,
                    ]);
                    assert(spec_split(s).skip(3) =~= Seq::<Seq<char>>::empty());
                }
                if user.as_str().is_empty() || role.as_str().is_empty()
                    || field.as_str().is_empty() {
                    return None;
                }
                Some(Context { user, role, _type: field, range })
            },
            Some(p3) => {
                let field = String::from_str(text.substring_char(p2 + 1, p3));
                let range = String::from_str(text.substring_char(p3 + 1, n));
                proof {
                    assert(s2[p3 - p2 - 1] == s[p3 as int]);
                    assert forall|j: int| 0 <= j < p3 - p2 - 1 implies s2[j] != ':' by {
                        assert(s2[j] == s[p2 + 1 + j]);
                    }
                    lemma_split_step(s2, p3 - p2 - 1);
                    let ghost s3 = s.skip(p3 + 1);
                    assert(s2.skip(p3 - p2 - 1 + 1) =~= s3);
                    assert(s2.take(p3 - p2 - 1) =~= s.subrange(p2 + 1, p3 as int));
                    lemma_split_len(s3);
                    lemma_join_split(s3);
                    assert(spec_split(s) =~= seq![
                        s.subrange(0, p1 as int),
                        s.subrange(p1 + 1, p2 as int),
                        s.subrange(p2 + 1, p3 as int),
                    ] + spec_split(s3));
                    assert(spec_split(s).len() >= 4);
                    assert(spec_split(s)[0] == s.subrange(0, p1 as int));
                    assert(spec_split(s)[1] == s.subrange(p1 + 1, p2 as int));
                    assert(spec_split(s)[2] == s.subrange(p2 + 1, p3 as int));
                    assert(spec_split(s).skip(3) =~= spec_split(s3));
                }
                if user.as_str().is_empty() || role.as_str().is_empty()
                    || field.as_str().is_empty() {
                    return None;
                }
                Some(Context { user, role, _type: field, range })
            },
        }
    }

    /// Serializes the context into its canonical textual form,
    /// `user:role:type:range`, writing all three colons.
    pub fn to_string(&self) -> (r: String)
        ensures
            r@ == spec_text(self@),
    {
        proof {
            reveal_strlit(":");
            assert(":"@ =~= seq![':']);
        }
        let mut r = self.user.clone();
        r.append(":");
        r.append(self.role.as_str());
        r.append(":");
        r.append(self._type.as_str());
        r.append(":");
        r.append(self.range.as_str());
        proof {
            assert(r@ =~= spec_text(self@));
        }
        r
    }

    /// The user field.
    pub fn user(&self) -> (r: &str)
        ensures
            r@ == self@.user,
    {
        self.user.as_str()
    }

    /// The role field.
    pub fn role(&self) -> (r: &str)
        ensures
            r@ == self@.role,
    {
        self.role.as_str()
    }

    /// The type field.
    pub fn _type(&self) -> (r: &str)
        ensures
            r@ == self@._type,
    {
        self._type.as_str()
    }

    /// The range field; empty when the context carries none.
    pub fn range(&self) -> (r: &str)
        ensures
            r@ == self@.range,
    {
        self.range.as_str()
    }

    /// Replaces the user field, leaving the others unchanged.
    pub fn set_user(&mut self, user: &str)
        ensures
            final(self)@ == (ContextView { user: user@, ..old(self)@ }),
    {
        self.user = user.to_owned();
    }

    /// Replaces the role field, leaving the others unchanged.
    pub fn set_role(&mut self, role: &str)
        ensures
            final(self)@ == (ContextView { role: role@, ..old(self)@ }),
    {
        self.role = role.to_owned();
    }

    /// Replaces the type field, leaving the others unchanged.
    pub fn set_type(&mut self, _type: &str)
        ensures
            final(self)@ == (ContextView { _type: _type@, ..old(self)@ }),
    {
        self._type = _type.to_owned();
    }

    /// Replaces the range field, leaving the others unchanged.
    pub fn set_range(&mut self, range: &str)
        ensures
            final(self)@ == (ContextView { range: range@, ..old(self)@ }),
    {
        self.range = range.to_owned();
    }
}

impl PartialEq for Context {
    /// Two contexts are equal exactly when all four fields are equal.
    fn eq(&self, other: &Context) -> (r: bool) {
        self.user == other.user && self.role == other.role && self._type == other._type
            && self.range == other.range
    }
}

impl vstd::std_specs::cmp::PartialEqSpecImpl for Context {
    open spec fn obeys_eq_spec() -> bool {
        true
    }

    open spec fn eq_spec(&self, other: &Context) -> bool {
        self@ == other@
    }
}

/// Interprets the outcome of a native subject or object getter: the status
/// it returned, and the text fetched from its out-parameter when that was
/// non-null and valid UTF-8. A failed status, a null result, undecodable
/// bytes, or text with fewer than three components all yield absence, never
/// an error.
pub fn interpret_get(status: i32, text: Option<&str>) -> (r: Option<Context>)
    ensures
        status == -1 || text is None ==> r is None,
        (status != -1 && text is Some) ==> {
            &&& (r is Some <==> spec_parse(text->Some_0@) is Some)
            &&& (r matches Some(c) ==> Some(c@) == spec_parse(text->Some_0@))
        },
{
    match text {
        Some(t) => {
            if status != -1 {
                Context::new(t)
            } else {
                None
            }
        },
        None => None,
    }
}

/// Assembles a context field by field, so that a caller can construct one
/// without writing its textual form. Building succeeds once user, role and
/// type are all non-empty; the range may stay empty.
#[derive(Debug)]
pub struct ContextBuilder {
    user: String,
    role: String,
    _type: String,
    range: String,
}

impl View for ContextBuilder {
    type V = ContextView;

    closed spec fn view(&self) -> ContextView {
        ContextView { user: self.user@, role: self.role@, _type: self._type@, range: self.range@ }
    }
}

impl ContextBuilder {
    /// A builder with all four fields empty.
    pub fn new() -> (r: ContextBuilder)
        ensures
            r@ == (ContextView {
                user: Seq::<char>::empty(),
                role: Seq::<char>::empty(),
                _type: Seq::<char>::empty(),
                range: Seq::<char>::empty(),
            }),
    {
        ContextBuilder {
            user: String::new(),
            role: String::new(),
            _type: String::new(),
            range: String::new(),
        }
    }

    /// The assembled context: present exactly when user, role and type are
    /// all non-empty, and then carrying the builder's four fields.
    pub fn build(&self) -> (r: Option<Context>)
        ensures
            r is Some <==> self@.user.len() > 0 && self@.role.len() > 0 && self@._type.len() > 0,
            r matches Some(c) ==> c@ == self@,
    {
        if !self.user.as_str().is_empty() && !self.role.as_str().is_empty()
            && !self._type.as_str().is_empty() {
            Some(
                Context {
                    user: self.user.clone(),
                    role: self.role.clone(),
                    _type: self._type.clone(),
                    range: self.range.clone(),
                },
            )
        } else {
            None
        }
    }

    /// Sets the user field; returns the builder for chaining.
    pub fn user(&mut self, user: &str) -> (ret: &mut ContextBuilder)
        ensures
            (*ret)@ == (ContextView { user: user@, ..old(self)@ }),
            *final(self) == *final(ret),
    {
        self.user = user.to_owned();
        self
    }

    /// Sets the role field; returns the builder for chaining.
    pub fn role(&mut self, role: &str) -> (ret: &mut ContextBuilder)
        ensures
            (*ret)@ == (ContextView { role: role@, ..old(self)@ }),
            *final(self) == *final(ret),
    {
        self.role = role.to_owned();
        self
    }

    /// Sets the type field; returns the builder for chaining.
    pub fn _type(&mut self, _type: &str) -> (ret: &mut ContextBuilder)
        ensures
            (*ret)@ == (ContextView { _type: _type@, ..old(self)@ }),
            *final(self) == *final(ret),
    {
        self._type = _type.to_owned();
        self
    }

    /// Sets the range field; returns the builder for chaining.
    pub fn range(&mut self, range: &str) -> (ret: &mut ContextBuilder)
        ensures
            (*ret)@ == (ContextView { range: range@, ..old(self)@ }),
            *final(self) == *final(ret),
    {
        self.range = range.to_owned();
        self
    }
}

impl Default for ContextBuilder {
    /// Same as `ContextBuilder::new`: a builder with all four fields empty.
    fn default() -> (r: ContextBuilder)
        ensures
            r@ == (ContextView {
                user: Seq::<char>::empty(),
                role: Seq::<char>::empty(),
                _type: Seq::<char>::empty(),
                range: Seq::<char>::empty(),
            }),
    {
        ContextBuilder::new()
    }
}

} // verus!

//! Identifiers and namespaced identifiers.
//!
//! An identifier names a registered resource. It may only contain lowercase
//! ASCII letters, digits and underscores, and must start with a letter or an
//! underscore. A namespaced identifier pairs a namespace with a value, both
//! identifiers, rendered `namespace:value`; parsing a bare string without a
//! colon supplies the default namespace, and a string with more than one
//! colon is rejected as invalid.

use vstd::prelude::*;
use vstd::string::StrSliceExecFns;

verus! {

/// An error from parsing an [`Identifier`].
#[derive(Debug, Clone, PartialEq, Eq)]
pub enum IdentifierError {
    /// The candidate held a character an identifier may not contain, or more
    /// than one colon stood in a namespaced candidate. Carries the offending
    /// text.
    InvalidIdentifier(String),
    /// The candidate was empty.
    EmptyIdentifier,
}

/// Whether a character may start an identifier: a lowercase ASCII letter or
/// an underscore.
pub open spec fn is_identifier_start(c: char) -> bool {
    ('a' as u32 <= c as u32 && c as u32 <= 'z' as u32) || c == '_'
}

/// Whether a character may stand in an identifier after the first: a
/// lowercase ASCII letter, a digit, or an underscore.
pub open spec fn is_identifier_char(c: char) -> bool {
    is_identifier_start(c) || ('0' as u32 <= c as u32 && c as u32 <= '9' as u32)
}

/// Whether a character sequence is a valid identifier.
pub open spec fn valid_identifier(s: Seq<char>) -> bool {
    &&& s.len() > 0
    &&& is_identifier_start(s[0])
    &&& forall|i: int| 1 <= i < s.len() ==> is_identifier_char(#[trigger] s[i])
}

/// The position of the last colon in a sequence, or `-1` where there is none.
pub open spec fn last_colon(s: Seq<char>) -> int
    decreases s.len(),
{
    if s.len() == 0 {
        -1
    } else if s[s.len() - 1] == ':' {
        s.len() - 1
    } else {
        last_colon(s.drop_last())
    }
}

/// What `last_colon` returns: the unique position of a colon with none after
/// it, or `-1` where the sequence has no colon at all.
pub proof fn lemma_last_colon(s: Seq<char>)
    ensures
        -1 <= last_colon(s) < s.len(),
        last_colon(s) == -1 ==> forall|i: int| 0 <= i < s.len() ==> s[i] != ':',
        last_colon(s) >= 0 ==> {
            &&& last_colon(s) < s.len()
            &&& s[last_colon(s)] == ':'
            &&& forall|i: int| last_colon(s) < i < s.len() ==> s[i] != ':'
        },
    decreases s.len(),
{
    if s.len() > 0 && s[s.len() - 1] != ':' {
        let t = s.drop_last();
        lemma_last_colon(t);
        assert(forall|i: int| 0 <= i < t.len() ==> #[trigger] s[i] == t[i]);
        if last_colon(s) >= 0 {
            assert(t[last_colon(t)] == ':');
            assert forall|i: int| last_colon(s) < i < s.len() implies s[i] != ':' by {
                if i < t.len() {
                    assert(t[i] != ':');
                }
            }
        } else {
            assert forall|i: int| 0 <= i < s.len() implies s[i] != ':' by {
                if i < t.len() {
                    assert(t[i] != ':');
                }
            }
        }
    }
}

/// What validating a whole textual candidate as one identifier yields: the
/// identifier itself where the text is valid, the empty-candidate error on
/// empty text, and otherwise the invalid-identifier error carrying the text.
pub open spec fn identifier_spec_matches(s: Seq<char>, r: Result<Identifier, IdentifierError>) -> bool {
    if valid_identifier(s) {
        r matches Ok(id) && id@ == s
    } else if s.len() == 0 {
        r == Result::<Identifier, IdentifierError>::Err(IdentifierError::EmptyIdentifier)
    } else {
        r matches Err(IdentifierError::InvalidIdentifier(t)) && t@ == s
    }
}

/// A named identifier for a registered resource.
#[derive(Debug, PartialEq, Eq, Hash)]
pub struct Identifier {
    text: String,
}

impl View for Identifier {
    type V = Seq<char>;

    closed spec fn view(&self) -> Seq<char> {
        self.text@
    }
}

impl Identifier {
    /// Every identifier value holds a valid character sequence.
    #[verifier::type_invariant]
    pub closed spec fn inv(self) -> bool {
        valid_identifier(self@)
    }

    /// What the type invariant guarantees of every identifier value.
    pub proof fn lemma_valid(&self)
        requires
            self.inv(),
        ensures
            valid_identifier(self@),
    {
    }

    /// Creates a new identifier from the given text, rejecting an empty
    /// candidate and any character outside lowercase letters, digits and
    /// underscores (with a letter or underscore first).
    pub fn new(value: &str) -> (r: Result<Identifier, IdentifierError>)
        ensures
            identifier_spec_matches(value@, r),
    {
        let n = value.unicode_len();
        if n == 0 {
            return Err(IdentifierError::EmptyIdentifier);
        }
        let first = value.get_char(0);
        let fu = first as u32;
        if !((97 <= fu && fu <= 122) || fu == 95) {
            assert(!is_identifier_start(value@[0]));
            return Err(IdentifierError::InvalidIdentifier(value.to_owned()));
        }
        let mut i: usize = 1;
        while i < n
            invariant
                1 <= i <= n,
                n == value@.len(),
                is_identifier_start(value@[0]),
                forall|j: int| 1 <= j < i ==> is_identifier_char(#[trigger] value@[j]),
            decreases n - i,
        {
            let c = value.get_char(i);
            let u = c as u32;
            if !((97 <= u && u <= 122) || u == 95 || (48 <= u && u <= 57)) {
                assert(!is_identifier_char(value@[i as int]));
                return Err(IdentifierError::InvalidIdentifier(value.to_owned()));
            }
            i += 1;
        }
        Ok(Identifier { text: value.to_owned() })
    }

    /// The identifier that stands for an unknown value.
    pub fn unknown() -> (r: Identifier)
        ensures
            r@ == "unknown"@,
    {
        proof {
            lemma_unknown_valid();
        }
        Identifier { text: "unknown".to_owned() }
    }

    /// Returns the text of this identifier.
    pub fn as_str(&self) -> (r: &str)
        ensures
            r@ == self@,
    {
        self.text.as_str()
    }
}

impl Default for Identifier {
    /// The default identifier names the hosting game itself.
    fn default() -> (r: Identifier)
        ensures
            r@ == "etheryal"@,
    {
        proof {
            lemma_etheryal_valid();
        }
        Identifier { text: "etheryal".to_owned() }
    }
}

/// The default namespace text is a valid identifier.
proof fn lemma_etheryal_valid()
    ensures
        valid_identifier("etheryal"@),
{
    reveal_strlit("etheryal");
    let s = "etheryal"@;
    assert forall|i: int| 1 <= i < s.len() implies is_identifier_char(s[i]) by {
        if i == 1 {
            assert(is_identifier_char(s[1]));
        } else if i == 2 {
            assert(is_identifier_char(s[2]));
        } else if i == 3 {
            assert(is_identifier_char(s[3]));
        } else if i == 4 {
            assert(is_identifier_char(s[4]));
        } else if i == 5 {
            assert(is_identifier_char(s[5]));
        } else if i == 6 {
            assert(is_identifier_char(s[6]));
        } else {
            assert(is_identifier_char(s[7]));
        }
    }
}

/// The unknown-value text is a valid identifier.
proof fn lemma_unknown_valid()
    ensures
        valid_identifier("unknown"@),
{
    reveal_strlit("unknown");
    let s = "unknown"@;
    assert forall|i: int| 1 <= i < s.len() implies is_identifier_char(s[i]) by {
        if i == 1 {
            assert(is_identifier_char(s[1]));
        } else if i == 2 {
            assert(is_identifier_char(s[2]));
        } else if i == 3 {
            assert(is_identifier_char(s[3]));
        } else if i == 4 {
            assert(is_identifier_char(s[4]));
        } else if i == 5 {
            assert(is_identifier_char(s[5]));
        } else {
            assert(is_identifier_char(s[6]));
        }
    }
}

/// An [`Identifier`] with a namespace field to prevent name collisions.
#[derive(Debug, PartialEq, Eq, Hash)]
pub struct NamespacedIdentifier {
    namespace: Identifier,
    value: Identifier,
}

impl View for NamespacedIdentifier {
    type V = (Seq<char>, Seq<char>);

    closed spec fn view(&self) -> (Seq<char>, Seq<char>) {
        (self.namespace@, self.value@)
    }
}

impl NamespacedIdentifier {
    /// Creates a new namespaced identifier from the given namespace and
    /// value.
    pub fn new(namespace: Identifier, value: Identifier) -> (r: NamespacedIdentifier)
        ensures
            r@ == (namespace@, value@),
    {
        NamespacedIdentifier { namespace, value }
    }

    /// Returns the namespace of this identifier.
    pub fn namespace(&self) -> (r: &Identifier)
        ensures
            r@ == self@.0,
    {
        &self.namespace
    }

    /// Returns the value of this identifier.
    pub fn value(&self) -> (r: &Identifier)
        ensures
            r@ == self@.1,
    {
        &self.value
    }
}

impl Default for NamespacedIdentifier {
    /// The default: the unknown value in the default namespace.
    fn default() -> (r: NamespacedIdentifier)
        ensures
            r@ == ("etheryal"@, "unknown"@),
    {
        NamespacedIdentifier::new(Identifier::default(), Identifier::unknown())
    }
}

/// What parsing a textual candidate into a namespaced identifier yields.
/// The segment after the last colon is the value and is validated first; a
/// second colon anywhere before it rejects the whole candidate; the segment
/// before a single colon is the namespace; with no colon at all the default
/// namespace is supplied.
pub open spec fn split_spec_matches(
    s: Seq<char>,
    r: Result<NamespacedIdentifier, IdentifierError>,
) -> bool {
    let lc = last_colon(s);
    let vseg = s.subrange(lc + 1, s.len() as int);
    if !valid_identifier(vseg) {
        if vseg.len() == 0 {
            r == Result::<NamespacedIdentifier, IdentifierError>::Err(
                IdentifierError::EmptyIdentifier,
            )
        } else {
            r matches Err(IdentifierError::InvalidIdentifier(t)) && t@ == vseg
        }
    } else if lc >= 0 && last_colon(s.subrange(0, lc)) >= 0 {
        r matches Err(IdentifierError::InvalidIdentifier(t)) && t@ == s
    } else if lc >= 0 {
        let nseg = s.subrange(0, lc);
        if !valid_identifier(nseg) {
            if nseg.len() == 0 {
                r == Result::<NamespacedIdentifier, IdentifierError>::Err(
                    IdentifierError::EmptyIdentifier,
                )
            } else {
                r matches Err(IdentifierError::InvalidIdentifier(t)) && t@ == nseg
            }
        } else {
            r matches Ok(id) && id@ == (nseg, vseg)
        }
    } else {
        r matches Ok(id) && id@ == ("etheryal"@, vseg)
    }
}

/// Splits a textual candidate at its last colon and validates both parts.
#[verifier::loop_isolation(false)]
fn split_identifier(identifier: &str) -> (r: Result<NamespacedIdentifier, IdentifierError>)
    ensures
        split_spec_matches(identifier@, r),
{
    proof {
        lemma_last_colon(identifier@);
    }
    let ghost s = identifier@;
    let n = identifier.unicode_len();

    // Find the last colon, scanning from the end.
    let mut lc: usize = n;  // `n` stands for "none found"
    let mut i: usize = n;
    while i > 0 && lc == n
        invariant
            s == identifier@,
            0 <= i <= n,
            lc <= n,
            n == s.len(),
            lc == n ==> forall|j: int| i <= j < s.len() ==> s[j] != ':',
            lc < n ==> i <= lc && s[lc as int] == ':' && forall|j: int|
                lc < j < s.len() ==> s[j] != ':',
        decreases i,
    {
        i -= 1;
        if identifier.get_char(i) == ':' {
            lc = i;
        }
    }
    proof {
        if lc == n {
            assert(last_colon(s) == -1) by {
                if last_colon(s) >= 0 {
                    assert(s[last_colon(s)] == ':');
                }
            }
        } else {
            assert(s[lc as int] == ':' && forall|j: int| lc < j < s.len() ==> s[j] != ':');
            assert(last_colon(s) == lc) by {
                if last_colon(s) == -1 {
                    assert(s[lc as int] != ':');
                } else if last_colon(s) < lc {
                    assert(s[lc as int] != ':');
                } else if last_colon(s) > lc {
                    assert(s[last_colon(s)] != ':');
                }
            }
        }
    }

    // The value is the segment after the last colon; validate it first.
    let vstr: &str = if lc == n {
        proof {
            assert(s.subrange(0, s.len() as int) =~= s);
        }
        identifier
    } else {
        identifier.substring_char(lc + 1, n)
    };
    let value = match Identifier::new(vstr) {
        Ok(v) => v,
        Err(e) => {
            return Err(e);
        },
    };

    // More than one colon rejects the whole candidate.
    if lc < n {
        let ghost nseg = s.subrange(0, lc as int);
        proof {
            lemma_last_colon(nseg);
        }
        let mut j: usize = 0;
        while j < lc
            invariant
                s == identifier@,
                nseg == s.subrange(0, lc as int),
                0 <= j <= lc < n,
                n == s.len(),
                forall|k: int| 0 <= k < j ==> s[k] != ':',
            decreases lc - j,
        {
            if identifier.get_char(j) == ':' {
                proof {
                    assert(nseg[j as int] == ':');
                    if last_colon(nseg) == -1 {
                        assert(nseg[j as int] != ':');
                    }
                }
                return Err(IdentifierError::InvalidIdentifier(identifier.to_owned()));
            }
            j += 1;
        }
        proof {
            assert(forall|k: int| 0 <= k < nseg.len() ==> nseg[k] == s[k] && s[k] != ':');
            if last_colon(nseg) >= 0 {
                assert(nseg[last_colon(nseg)] == ':');
            }
        }
        // A single colon: the segment before it is the namespace.
        let nstr = identifier.substring_char(0, lc);
        let namespace = match Identifier::new(nstr) {
            Ok(ns) => ns,
            Err(e) => {
                return Err(e);
            },
        };
        Ok(NamespacedIdentifier::new(namespace, value))
    } else {
        // No colon: the default namespace is supplied.
        Ok(NamespacedIdentifier::new(Identifier::default(), value))
    }
}

/// What validating a (namespace, value) pair of textual candidates yields:
/// the namespace is validated first, then the value, each by the whole-text
/// identifier rules.
pub open spec fn pair_spec_matches(
    ns: Seq<char>,
    v: Seq<char>,
    r: Result<NamespacedIdentifier, IdentifierError>,
) -> bool {
    if !valid_identifier(ns) {
        if ns.len() == 0 {
            r == Result::<NamespacedIdentifier, IdentifierError>::Err(
                IdentifierError::EmptyIdentifier,
            )
        } else {
            r matches Err(IdentifierError::InvalidIdentifier(t)) && t@ == ns
        }
    } else if !valid_identifier(v) {
        if v.len() == 0 {
            r == Result::<NamespacedIdentifier, IdentifierError>::Err(
                IdentifierError::EmptyIdentifier,
            )
        } else {
            r matches Err(IdentifierError::InvalidIdentifier(t)) && t@ == v
        }
    } else {
        r matches Ok(id) && id@ == (ns, v)
    }
}

/// Validates a (namespace, value) pair of textual candidates, namespace
/// first.
fn pair_identifier(namespace: &str, value: &str) -> (r: Result<
    NamespacedIdentifier,
    IdentifierError,
>)
    ensures
        pair_spec_matches(namespace@, value@, r),
{
    let ns = match Identifier::new(namespace) {
        Ok(n) => n,
        Err(e) => {
            return Err(e);
        },
    };
    let v = match Identifier::new(value) {
        Ok(n) => n,
        Err(e) => {
            return Err(e);
        },
    };
    Ok(NamespacedIdentifier::new(ns, v))
}

impl TryFrom<String> for NamespacedIdentifier {
    type Error = IdentifierError;

    /// Parses `namespace:value`, a bare `value`, but no second colon.
    fn try_from(value: String) -> (r: Result<NamespacedIdentifier, IdentifierError>)
        ensures
            split_spec_matches(value@, r),
    {
        split_identifier(value.as_str())
    }
}

impl vstd::std_specs::convert::TryFromSpecImpl<String> for NamespacedIdentifier {
    open spec fn obeys_try_from_spec() -> bool {
        false
    }

    open spec fn try_from_spec(v: String) -> Result<NamespacedIdentifier, IdentifierError> {
        arbitrary()
    }
}

impl<'a> TryFrom<&'a str> for NamespacedIdentifier {
    type Error = IdentifierError;

    /// Parses `namespace:value`, a bare `value`, but no second colon.
    fn try_from(value: &'a str) -> (r: Result<NamespacedIdentifier, IdentifierError>)
        ensures
            split_spec_matches(value@, r),
    {
        split_identifier(value)
    }
}

impl<'a> vstd::std_specs::convert::TryFromSpecImpl<&'a str> for NamespacedIdentifier {
    open spec fn obeys_try_from_spec() -> bool {
        false
    }

    open spec fn try_from_spec(v: &'a str) -> Result<NamespacedIdentifier, IdentifierError> {
        arbitrary()
    }
}

impl<'a> TryFrom<&'a String> for NamespacedIdentifier {
    type Error = IdentifierError;

    /// Parses `namespace:value`, a bare `value`, but no second colon.
    fn try_from(value: &'a String) -> (r: Result<NamespacedIdentifier, IdentifierError>)
        ensures
            split_spec_matches(value@, r),
    {
        split_identifier(value.as_str())
    }
}

impl<'a> vstd::std_specs::convert::TryFromSpecImpl<&'a String> for NamespacedIdentifier {
    open spec fn obeys_try_from_spec() -> bool {
        false
    }

    open spec fn try_from_spec(v: &'a String) -> Result<NamespacedIdentifier, IdentifierError> {
        arbitrary()
    }
}

impl TryFrom<(String, String)> for NamespacedIdentifier {
    type Error = IdentifierError;

    /// Validates a (namespace, value) pair, namespace first.
    fn try_from(value: (String, String)) -> (r: Result<NamespacedIdentifier, IdentifierError>)
        ensures
            pair_spec_matches(value.0@, value.1@, r),
    {
        pair_identifier(value.0.as_str(), value.1.as_str())
    }
}

impl vstd::std_specs::convert::TryFromSpecImpl<(String, String)> for NamespacedIdentifier {
    open spec fn obeys_try_from_spec() -> bool {
        false
    }

    open spec fn try_from_spec(v: (String, String)) -> Result<
        NamespacedIdentifier,
        IdentifierError,
    > {
        arbitrary()
    }
}

impl<'a> TryFrom<(&'a str, &'a str)> for NamespacedIdentifier {
    type Error = IdentifierError;

    /// Validates a (namespace, value) pair, namespace first.
    fn try_from(value: (&'a str, &'a str)) -> (r: Result<NamespacedIdentifier, IdentifierError>)
        ensures
            pair_spec_matches(value.0@, value.1@, r),
    {
        pair_identifier(value.0, value.1)
    }
}

impl<'a> vstd::std_specs::convert::TryFromSpecImpl<(&'a str, &'a str)> for NamespacedIdentifier {
    open spec fn obeys_try_from_spec() -> bool {
        false
    }

    open spec fn try_from_spec(v: (&'a str, &'a str)) -> Result<
        NamespacedIdentifier,
        IdentifierError,
    > {
        arbitrary()
    }
}

impl<'a> TryFrom<(&'a String, &'a String)> for NamespacedIdentifier {
    type Error = IdentifierError;

    /// Validates a (namespace, value) pair, namespace first.
    fn try_from(value: (&'a String, &'a String)) -> (r: Result<
        NamespacedIdentifier,
        IdentifierError,
    >)
        ensures
            pair_spec_matches(value.0@, value.1@, r),
    {
        pair_identifier(value.0.as_str(), value.1.as_str())
    }
}

impl<'a> vstd::std_specs::convert::TryFromSpecImpl<(&'a String, &'a String)> for NamespacedIdentifier {
    open spec fn obeys_try_from_spec() -> bool {
        false
    }

    open spec fn try_from_spec(v: (&'a String, &'a String)) -> Result<
        NamespacedIdentifier,
        IdentifierError,
    > {
        arbitrary()
    }
}

impl From<(Identifier, Identifier)> for NamespacedIdentifier {
    /// Pairs two already validated identifiers as namespace and value.
    fn from(value: (Identifier, Identifier)) -> (r: NamespacedIdentifier)
        ensures
            r@ == (value.0@, value.1@),
    {
        NamespacedIdentifier { namespace: value.0, value: value.1 }
    }
}

impl vstd::std_specs::convert::FromSpecImpl<(Identifier, Identifier)> for NamespacedIdentifier {
    open spec fn obeys_from_spec() -> bool {
        false
    }

    open spec fn from_spec(t: (Identifier, Identifier)) -> NamespacedIdentifier {
        arbitrary()
    }
}

impl TryFrom<String> for Identifier {
    type Error = IdentifierError;

    /// Validates the whole text as one identifier.
    fn try_from(value: String) -> (r: Result<Identifier, IdentifierError>)
        ensures
            identifier_spec_matches(value@, r),
    {
        Identifier::new(value.as_str())
    }
}

impl vstd::std_specs::convert::TryFromSpecImpl<String> for Identifier {
    open spec fn obeys_try_from_spec() -> bool {
        false
    }

    open spec fn try_from_spec(v: String) -> Result<Identifier, IdentifierError> {
        arbitrary()
    }
}

impl<'a> TryFrom<&'a str> for Identifier {
    type Error = IdentifierError;

    /// Validates the whole text as one identifier.
    fn try_from(value: &'a str) -> (r: Result<Identifier, IdentifierError>)
        ensures
            identifier_spec_matches(value@, r),
    {
        Identifier::new(value)
    }
}

impl<'a> vstd::std_specs::convert::TryFromSpecImpl<&'a str> for Identifier {
    open spec fn obeys_try_from_spec() -> bool {
        false
    }

    open spec fn try_from_spec(v: &'a str) -> Result<Identifier, IdentifierError> {
        arbitrary()
    }
}

impl<'a> TryFrom<&'a String> for Identifier {
    type Error = IdentifierError;

    /// Validates the whole text as one identifier.
    fn try_from(value: &'a String) -> (r: Result<Identifier, IdentifierError>)
        ensures
            identifier_spec_matches(value@, r),
    {
        Identifier::new(value.as_str())
    }
}

impl<'a> vstd::std_specs::convert::TryFromSpecImpl<&'a String> for Identifier {
    open spec fn obeys_try_from_spec() -> bool {
        false
    }

    open spec fn try_from_spec(v: &'a String) -> Result<Identifier, IdentifierError> {
        arbitrary()
    }
}

/// Parses a textual candidate into a namespaced identifier: the public,
/// contract-carrying form of the conversions above.
pub fn parse_namespaced(identifier: &str) -> (r: Result<NamespacedIdentifier, IdentifierError>)
    ensures
        split_spec_matches(identifier@, r),
{
    split_identifier(identifier)
}

} // verus!

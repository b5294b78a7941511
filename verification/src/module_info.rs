//! The extension module descriptor and its wire encoding.
//!
//! The descriptor carries static metadata about the guest module — name,
//! namespaced identifier, semantic version, dependency list, optional
//! description — and is sent exactly once, before any other message. Like
//! the envelopes, it is encoded as a binary map with field names on the
//! wire; versions and version ranges travel as text.

use vstd::prelude::*;
use vstd::string::{StrSliceExecFns, StringSliceAdditionalSpecFns};
use vstd::utf8::{encode_utf8, is_ascii_chars, is_ascii_chars_encode_utf8};

use crate::codec::ascii_bytes;
use crate::identifier::{valid_identifier, Identifier, NamespacedIdentifier};

verus! {

/// A semantic version: major, minor and patch numbers. On the wire it is
/// the text `major.minor.patch`.
#[derive(Debug, Clone, Copy, PartialEq, Eq, Hash, Structural)]
pub struct Version {
    /// The major version number.
    pub major: u64,
    /// The minor version number.
    pub minor: u64,
    /// The patch version number.
    pub patch: u64,
}

/// A version requirement for a dependency, carried as its textual form
/// (for instance `^1.2.3`). The descriptor only transports it; the host
/// evaluates it.
#[derive(Debug, PartialEq, Eq)]
pub struct VersionReq {
    /// The requirement's text.
    pub text: String,
}

/// One dependency of the module: who is required, at which versions, and
/// whether the module can do without it.
#[derive(Debug, PartialEq, Eq)]
pub struct ExtensionModuleDependency {
    /// The dependency's unique identifier.
    pub identifier: NamespacedIdentifier,
    /// The dependency's required version range.
    pub version: VersionReq,
    /// Whether the dependency is optional.
    pub optional: bool,
}

/// The module descriptor: static metadata sent to the host exactly once,
/// before any other message, immutable thereafter.
#[derive(Debug, PartialEq, Eq)]
pub struct ExtensionModuleInfo {
    /// The human-readable name of the module.
    pub name: String,
    /// The module's unique identifier.
    pub identifier: NamespacedIdentifier,
    /// The module's version.
    pub version: Version,
    /// The module's dependencies.
    pub dependencies: Vec<ExtensionModuleDependency>,
    /// The module's description.
    pub description: Option<String>,
}

/// The header announcing a string of `n` bytes: short strings carry the
/// length in one byte, longer ones in one, two or four following bytes.
pub open spec fn spec_str_header(n: int) -> Seq<u8> {
    if n < 32 {
        seq![(0xa0 + n) as u8]
    } else if n < 256 {
        seq![0xd9u8, n as u8]
    } else if n < 65536 {
        seq![0xdau8, (n / 256) as u8, (n % 256) as u8]
    } else {
        seq![
            0xdbu8,
            (n / 0x1000000) as u8,
            ((n / 0x10000) % 256) as u8,
            ((n / 256) % 256) as u8,
            (n % 256) as u8,
        ]
    }
}

/// A string of bytes on the wire: its header, then the bytes.
pub open spec fn spec_str(b: Seq<u8>) -> Seq<u8> {
    spec_str_header(b.len() as int) + b
}

/// The header announcing an array of `n` elements.
pub open spec fn spec_array_header(n: int) -> Seq<u8> {
    if n < 16 {
        seq![(0x90 + n) as u8]
    } else if n < 65536 {
        seq![0xdcu8, (n / 256) as u8, (n % 256) as u8]
    } else {
        seq![
            0xddu8,
            (n / 0x1000000) as u8,
            ((n / 0x10000) % 256) as u8,
            ((n / 256) % 256) as u8,
            (n % 256) as u8,
        ]
    }
}

/// A boolean on the wire.
pub open spec fn spec_bool(b: bool) -> Seq<u8> {
    if b {
        seq![0xc3u8]
    } else {
        seq![0xc2u8]
    }
}

/// The absent value on the wire.
pub open spec fn spec_nil() -> Seq<u8> {
    seq![0xc0u8]
}

/// A nonnegative number in decimal text, as bytes.
pub open spec fn spec_decimal(n: int) -> Seq<u8>
    recommends
        n >= 0,
    decreases n,
{
    if n < 10 {
        seq![(0x30 + n) as u8]
    } else {
        spec_decimal(n / 10) + seq![(0x30 + n % 10) as u8]
    }
}

/// The version text `major.minor.patch`, as bytes.
pub open spec fn spec_version_bytes(v: Version) -> Seq<u8> {
    spec_decimal(v.major as int) + seq![0x2eu8] + spec_decimal(v.minor as int) + seq![0x2eu8]
        + spec_decimal(v.patch as int)
}

/// Powers of ten.
pub open spec fn pow10(k: nat) -> int
    decreases k,
{
    if k == 0 {
        1
    } else {
        10 * pow10((k - 1) as nat)
    }
}

/// Powers of ten are positive.
proof fn lemma_pow10_pos(k: nat)
    ensures
        pow10(k) >= 1,
    decreases k,
{
    if k > 0 {
        lemma_pow10_pos((k - 1) as nat);
    }
}

/// A number below the `k`-th power of ten has at most `k` decimal digits.
proof fn lemma_decimal_len(n: int, k: nat)
    requires
        0 <= n < pow10(k),
        k >= 1,
    ensures
        1 <= spec_decimal(n).len() <= k,
    decreases k,
{
    if n >= 10 {
        assert(k >= 2) by {
            if k == 1 {
                assert(pow10(0) == 1);
                assert(pow10(1) == 10);
            }
        }
        lemma_pow10_pos((k - 1) as nat);
        assert(n / 10 < pow10((k - 1) as nat)) by (nonlinear_arith)
            requires
                n < 10 * pow10((k - 1) as nat),
                n >= 10,
        ;
        lemma_decimal_len(n / 10, (k - 1) as nat);
    }
}

/// Any 64-bit number has at most twenty decimal digits.
pub proof fn lemma_decimal_len_u64(n: u64)
    ensures
        1 <= spec_decimal(n as int).len() <= 20,
{
    assert(pow10(0) == 1);
    assert(pow10(1) == 10);
    assert(pow10(2) == 100);
    assert(pow10(3) == 1000);
    assert(pow10(4) == 10000);
    assert(pow10(5) == 100000);
    assert(pow10(6) == 1000000);
    assert(pow10(7) == 10000000);
    assert(pow10(8) == 100000000);
    assert(pow10(9) == 1000000000);
    assert(pow10(10) == 10000000000);
    assert(pow10(11) == 100000000000);
    assert(pow10(12) == 1000000000000);
    assert(pow10(13) == 10000000000000);
    assert(pow10(14) == 100000000000000);
    assert(pow10(15) == 1000000000000000);
    assert(pow10(16) == 10000000000000000);
    assert(pow10(17) == 100000000000000000);
    assert(pow10(18) == 1000000000000000000);
    assert(pow10(19) == 10000000000000000000);
    assert(pow10(20) == 100000000000000000000);
    lemma_decimal_len(n as int, 20);
}

/// Appends the header announcing a string of `n` bytes.
fn write_str_header(out: &mut Vec<u8>, n: usize)
    requires
        n <= 0xFFFFFFFFusize,
    ensures
        final(out)@ == old(out)@ + spec_str_header(n as int),
{
    if n < 32 {
        out.push(0xa0 + n as u8);
        assert(final(out)@ =~= old(out)@ + spec_str_header(n as int));
    } else if n < 256 {
        out.push(0xd9);
        out.push(n as u8);
        assert(final(out)@ =~= old(out)@ + spec_str_header(n as int));
    } else if n < 65536 {
        out.push(0xda);
        out.push((n / 256) as u8);
        out.push((n % 256) as u8);
        assert(final(out)@ =~= old(out)@ + spec_str_header(n as int));
    } else {
        out.push(0xdb);
        out.push((n / 0x1000000) as u8);
        out.push(((n / 0x10000) % 256) as u8);
        out.push(((n / 256) % 256) as u8);
        out.push((n % 256) as u8);
        assert(final(out)@ =~= old(out)@ + spec_str_header(n as int));
    }
}

/// Appends the header announcing an array of `n` elements.
fn write_array_header(out: &mut Vec<u8>, n: usize)
    requires
        n <= 0xFFFFFFFFusize,
    ensures
        final(out)@ == old(out)@ + spec_array_header(n as int),
{
    if n < 16 {
        out.push(0x90 + n as u8);
        assert(final(out)@ =~= old(out)@ + spec_array_header(n as int));
    } else if n < 65536 {
        out.push(0xdc);
        out.push((n / 256) as u8);
        out.push((n % 256) as u8);
        assert(final(out)@ =~= old(out)@ + spec_array_header(n as int));
    } else {
        out.push(0xdd);
        out.push((n / 0x1000000) as u8);
        out.push(((n / 0x10000) % 256) as u8);
        out.push(((n / 256) % 256) as u8);
        out.push((n % 256) as u8);
        assert(final(out)@ =~= old(out)@ + spec_array_header(n as int));
    }
}

/// Appends a string's header and its UTF-8 bytes.
fn write_str(out: &mut Vec<u8>, s: &str)
    requires
        s.spec_bytes().len() <= 0xFFFFFFFFusize,
    ensures
        final(out)@ == old(out)@ + spec_str(s.spec_bytes()),
{
    let mut b = s.as_bytes_vec();
    write_str_header(out, b.len());
    out.append(&mut b);
    assert(final(out)@ =~= old(out)@ + spec_str(s.spec_bytes()));
}

/// Appends an identifier as a string: its header, then one byte per
/// character, as every identifier is ASCII.
fn write_ident(out: &mut Vec<u8>, id: &Identifier)
    requires
        id@.len() <= 0xFFFFFFFFusize,
    ensures
        final(out)@ == old(out)@ + spec_str(ascii_bytes(id@)),
{
    proof {
        use_type_invariant(id);
        id.lemma_valid();
        lemma_valid_is_ascii(id@);
        is_ascii_chars_encode_utf8(id@);
    }
    let s = id.as_str();
    let mut b = s.as_bytes_vec();
    proof {
        assert(b@ =~= ascii_bytes(id@));
    }
    write_str_header(out, b.len());
    out.append(&mut b);
    assert(final(out)@ =~= old(out)@ + spec_str(ascii_bytes(id@)));
}

/// An identifier character is ASCII.
proof fn lemma_identifier_char_ascii(c: char)
    requires
        crate::identifier::is_identifier_char(c),
    ensures
        '\0' <= c <= '\u{7f}',
{
    assert(48 <= c as u32 <= 122);
}

/// A valid identifier holds only ASCII characters.
pub proof fn lemma_valid_is_ascii(s: Seq<char>)
    requires
        valid_identifier(s),
    ensures
        is_ascii_chars(s),
{
    assert forall|i: int| 0 <= i < s.len() implies '\0' <= #[trigger] s[i] <= '\u{7f}' by {
        if i == 0 {
            assert(crate::identifier::is_identifier_start(s[0]));
        } else {
            assert(crate::identifier::is_identifier_char(s[i]));
        }
        lemma_identifier_char_ascii(s[i]);
    }
}

/// Appends a decimal rendering of a number, most significant digit first.
fn push_decimal(out: &mut Vec<u8>, n: u64)
    ensures
        final(out)@ == old(out)@ + spec_decimal(n as int),
    decreases n,
{
    if n < 10 {
        out.push(0x30 + n as u8);
        assert(final(out)@ =~= old(out)@ + spec_decimal(n as int));
    } else {
        assert(n / 10 < n) by (nonlinear_arith)
            requires
                n >= 10,
        ;
        push_decimal(out, n / 10);
        out.push(0x30 + (n % 10) as u8);
        assert(final(out)@ =~= old(out)@ + spec_decimal(n as int));
    }
}

/// Renders a version as the text `major.minor.patch`, in bytes.
pub fn version_bytes(v: &Version) -> (r: Vec<u8>)
    ensures
        r@ == spec_version_bytes(*v),
        r@.len() <= 62,
{
    proof {
        lemma_decimal_len_u64(v.major);
        lemma_decimal_len_u64(v.minor);
        lemma_decimal_len_u64(v.patch);
    }
    let mut out: Vec<u8> = Vec::new();
    push_decimal(&mut out, v.major);
    out.push(0x2e);
    push_decimal(&mut out, v.minor);
    out.push(0x2e);
    push_decimal(&mut out, v.patch);
    proof {
        assert(out@ =~= spec_version_bytes(*v));
    }
    out
}

/// The key `name` on the wire.
pub open spec fn spec_key_name() -> Seq<u8> {
    seq![0xa4u8, 0x6eu8, 0x61u8, 0x6du8, 0x65u8]
}

/// The key `identifier` on the wire.
pub open spec fn spec_key_identifier() -> Seq<u8> {
    seq![0xaau8, 0x69u8, 0x64u8, 0x65u8, 0x6eu8, 0x74u8, 0x69u8, 0x66u8, 0x69u8, 0x65u8, 0x72u8]
}

/// The key `version` on the wire.
pub open spec fn spec_key_version() -> Seq<u8> {
    seq![0xa7u8, 0x76u8, 0x65u8, 0x72u8, 0x73u8, 0x69u8, 0x6fu8, 0x6eu8]
}

/// The key `dependencies` on the wire.
pub open spec fn spec_key_dependencies() -> Seq<u8> {
    seq![
        0xacu8,
        0x64u8,
        0x65u8,
        0x70u8,
        0x65u8,
        0x6eu8,
        0x64u8,
        0x65u8,
        0x6eu8,
        0x63u8,
        0x69u8,
        0x65u8,
        0x73u8,
    ]
}

/// The key `description` on the wire.
pub open spec fn spec_key_description() -> Seq<u8> {
    seq![
        0xabu8,
        0x64u8,
        0x65u8,
        0x73u8,
        0x63u8,
        0x72u8,
        0x69u8,
        0x70u8,
        0x74u8,
        0x69u8,
        0x6fu8,
        0x6eu8,
    ]
}

/// The key `namespace` on the wire.
pub open spec fn spec_key_namespace() -> Seq<u8> {
    seq![0xa9u8, 0x6eu8, 0x61u8, 0x6du8, 0x65u8, 0x73u8, 0x70u8, 0x61u8, 0x63u8, 0x65u8]
}

/// The key `value` on the wire.
pub open spec fn spec_key_value() -> Seq<u8> {
    seq![0xa5u8, 0x76u8, 0x61u8, 0x6cu8, 0x75u8, 0x65u8]
}

/// The key `optional` on the wire.
pub open spec fn spec_key_optional() -> Seq<u8> {
    seq![0xa8u8, 0x6fu8, 0x70u8, 0x74u8, 0x69u8, 0x6fu8, 0x6eu8, 0x61u8, 0x6cu8]
}

/// A namespaced identifier on the wire: a two-entry map from `namespace`
/// and `value` to the respective identifier texts.
pub open spec fn spec_encode_nsid(id: NamespacedIdentifier) -> Seq<u8> {
    seq![0x82u8] + spec_key_namespace() + spec_str(ascii_bytes(id@.0)) + spec_key_value()
        + spec_str(ascii_bytes(id@.1))
}

/// One dependency on the wire: a three-entry map from `identifier`,
/// `version` and `optional` to its identifier, its range text and its flag.
pub open spec fn spec_encode_dep(d: ExtensionModuleDependency) -> Seq<u8> {
    seq![0x83u8] + spec_key_identifier() + spec_encode_nsid(d.identifier) + spec_key_version()
        + spec_str(encode_utf8(d.version.text@)) + spec_key_optional() + spec_bool(d.optional)
}

/// A dependency list on the wire: each dependency in order, concatenated.
pub open spec fn spec_encode_deps(deps: Seq<ExtensionModuleDependency>) -> Seq<u8>
    decreases deps.len(),
{
    if deps.len() == 0 {
        Seq::empty()
    } else {
        spec_encode_dep(deps[0]) + spec_encode_deps(deps.drop_first())
    }
}

/// Appending one dependency to a list appends its encoding to the list's.
proof fn lemma_encode_deps_push(deps: Seq<ExtensionModuleDependency>, d: ExtensionModuleDependency)
    ensures
        spec_encode_deps(deps.push(d)) == spec_encode_deps(deps) + spec_encode_dep(d),
    decreases deps.len(),
{
    if deps.len() == 0 {
        assert(deps.push(d).drop_first() =~= deps);
        assert(spec_encode_deps(deps.push(d)) =~= spec_encode_deps(deps) + spec_encode_dep(d));
    } else {
        assert(deps.push(d).drop_first() =~= deps.drop_first().push(d));
        lemma_encode_deps_push(deps.drop_first(), d);
        assert(spec_encode_deps(deps.push(d)) =~= spec_encode_deps(deps) + spec_encode_dep(d));
    }
}

/// The whole descriptor on the wire: a five-entry map from `name`,
/// `identifier`, `version`, `dependencies` and `description` to the
/// respective values; a missing description is the nil value.
pub open spec fn spec_encode_info(info: ExtensionModuleInfo) -> Seq<u8> {
    seq![0x85u8] + spec_key_name() + spec_str(encode_utf8(info.name@)) + spec_key_identifier()
        + spec_encode_nsid(info.identifier) + spec_key_version() + spec_str(
        spec_version_bytes(info.version),
    ) + spec_key_dependencies() + spec_array_header(info.dependencies@.len() as int)
        + spec_encode_deps(info.dependencies@) + spec_key_description() + (
    match info.description {
        Some(d) => spec_str(encode_utf8(d@)),
        None => spec_nil(),
    })
}

/// Whether a dependency's parts fit the wire format's length fields.
pub open spec fn dep_encodable(d: ExtensionModuleDependency) -> bool {
    &&& d.identifier@.0.len() <= 0xFFFFFFFF
    &&& d.identifier@.1.len() <= 0xFFFFFFFF
    &&& encode_utf8(d.version.text@).len() <= 0xFFFFFFFF
}

/// Whether a descriptor's parts fit the wire format's length fields.
pub open spec fn info_encodable(info: ExtensionModuleInfo) -> bool {
    &&& encode_utf8(info.name@).len() <= 0xFFFFFFFF
    &&& info.identifier@.0.len() <= 0xFFFFFFFF
    &&& info.identifier@.1.len() <= 0xFFFFFFFF
    &&& info.dependencies@.len() <= 0xFFFFFFFF
    &&& forall|i: int|
        0 <= i < info.dependencies@.len() ==> dep_encodable(#[trigger] info.dependencies@[i])
    &&& match info.description {
        Some(d) => encode_utf8(d@).len() <= 0xFFFFFFFF,
        None => true,
    }
}

/// Appends a namespaced identifier's wire form.
fn write_nsid(out: &mut Vec<u8>, id: &NamespacedIdentifier)
    requires
        id@.0.len() <= 0xFFFFFFFF,
        id@.1.len() <= 0xFFFFFFFF,
    ensures
        final(out)@ == old(out)@ + spec_encode_nsid(*id),
{
    out.push(0x82);
    let mut k1: Vec<u8> = vec![0xa9, 0x6e, 0x61, 0x6d, 0x65, 0x73, 0x70, 0x61, 0x63, 0x65];
    out.append(&mut k1);
    write_ident(out, id.namespace());
    let mut k2: Vec<u8> = vec![0xa5, 0x76, 0x61, 0x6c, 0x75, 0x65];
    out.append(&mut k2);
    write_ident(out, id.value());
    assert(final(out)@ =~= old(out)@ + spec_encode_nsid(*id));
}

/// Appends one dependency's wire form.
fn write_dep(out: &mut Vec<u8>, d: &ExtensionModuleDependency)
    requires
        dep_encodable(*d),
    ensures
        final(out)@ == old(out)@ + spec_encode_dep(*d),
{
    out.push(0x83);
    let mut k1: Vec<u8> = vec![
        0xaa,
        0x69,
        0x64,
        0x65,
        0x6e,
        0x74,
        0x69,
        0x66,
        0x69,
        0x65,
        0x72,
    ];
    out.append(&mut k1);
    write_nsid(out, &d.identifier);
    let mut k2: Vec<u8> = vec![0xa7, 0x76, 0x65, 0x72, 0x73, 0x69, 0x6f, 0x6e];
    out.append(&mut k2);
    write_str(out, d.version.text.as_str());
    let mut k3: Vec<u8> = vec![0xa8, 0x6f, 0x70, 0x74, 0x69, 0x6f, 0x6e, 0x61, 0x6c];
    out.append(&mut k3);
    if d.optional {
        out.push(0xc3);
    } else {
        out.push(0xc2);
    }
    assert(final(out)@ =~= old(out)@ + spec_encode_dep(*d));
}

/// Serializes the module descriptor into its wire form.
#[verifier::loop_isolation(false)]
#[verifier::rlimit(50)]
pub fn encode_info(info: &ExtensionModuleInfo) -> (r: Vec<u8>)
    requires
        info_encodable(*info),
    ensures
        r@ == spec_encode_info(*info),
{
    let mut out: Vec<u8> = Vec::new();
    out.push(0x85);
    let mut k1: Vec<u8> = vec![0xa4, 0x6e, 0x61, 0x6d, 0x65];
    out.append(&mut k1);
    write_str(&mut out, info.name.as_str());
    let mut k2: Vec<u8> = vec![
        0xaa,
        0x69,
        0x64,
        0x65,
        0x6e,
        0x74,
        0x69,
        0x66,
        0x69,
        0x65,
        0x72,
    ];
    out.append(&mut k2);
    write_nsid(&mut out, &info.identifier);
    let mut k3: Vec<u8> = vec![0xa7, 0x76, 0x65, 0x72, 0x73, 0x69, 0x6f, 0x6e];
    out.append(&mut k3);
    let mut vb = version_bytes(&info.version);
    write_str_header(&mut out, vb.len());
    out.append(&mut vb);
    let mut k4: Vec<u8> = vec![
        0xac,
        0x64,
        0x65,
        0x70,
        0x65,
        0x6e,
        0x64,
        0x65,
        0x6e,
        0x63,
        0x69,
        0x65,
        0x73,
    ];
    out.append(&mut k4);
    let deps_len = info.dependencies.len();
    write_array_header(&mut out, deps_len);
    let ghost base = out@;
    let mut i: usize = 0;
    proof {
        assert(spec_encode_deps(info.dependencies@.take(0)) =~= Seq::<u8>::empty());
        assert(out@ =~= base + spec_encode_deps(info.dependencies@.take(0)));
    }
    while i < deps_len
        invariant
            0 <= i <= deps_len,
            out@ == base + spec_encode_deps(info.dependencies@.take(i as int)),
        decreases deps_len - i,
    {
        write_dep(&mut out, &info.dependencies[i]);
        proof {
            assert(info.dependencies@.take(i + 1) =~= info.dependencies@.take(i as int).push(
                info.dependencies@[i as int],
            ));
            lemma_encode_deps_push(info.dependencies@.take(i as int), info.dependencies@[i as int]);
            assert(out@ =~= base + spec_encode_deps(info.dependencies@.take(i + 1)));
        }
        i += 1;
    }
    proof {
        assert(info.dependencies@.take(deps_len as int) =~= info.dependencies@);
    }
    let mut k5: Vec<u8> = vec![
        0xab,
        0x64,
        0x65,
        0x73,
        0x63,
        0x72,
        0x69,
        0x70,
        0x74,
        0x69,
        0x6f,
        0x6e,
    ];
    out.append(&mut k5);
    match &info.description {
        Some(d) => {
            write_str(&mut out, d.as_str());
        },
        None => {
            out.push(0xc0);
        },
    }
    proof {
        assert(out@ =~= spec_encode_info(*info));
    }
    out
}

} // verus!

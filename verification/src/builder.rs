//! The reference builder: derives the content-addressed image URIs and the
//! serialized attribute buffer for a given item index.
//!
//! Both derivations are pure functions of the stored collection
//! configuration and the index, byte-exact string concatenation with no
//! escaping, so the same index always produces the same buffer.

use vstd::prelude::*;

verus! {

/// Host prefix of the gateway-resolvable image URI: `https://ipfs.io/ipfs/`.
pub open spec fn ipfs_gateway_host() -> Seq<u8> {
    seq![
        104, 116, 116, 112, 115, 58, 47, 47, 105, 112, 102, 115, 46, 105, 111,
        47, 105, 112, 102, 115, 47,
    ]
}

/// Prefix of the content-addressed scheme URI: `ipfs://`.
pub open spec fn ipfs_scheme() -> Seq<u8> {
    seq![105, 112, 102, 115, 58, 47, 47]
}

/// Label that opens the metadata section of the attribute buffer: `metadata:`.
pub open spec fn metadata_key_name() -> Seq<u8> {
    seq![109, 101, 116, 97, 100, 97, 116, 97, 58]
}

/// Extension of the metadata file reference: `.json`.
pub open spec fn metadata_file_extension() -> Seq<u8> {
    seq![46, 106, 115, 111, 110]
}

/// Separator between the tag and metadata sections of the attribute buffer.
pub open spec fn attr_separator() -> Seq<u8> {
    seq![59]
}

/// Path separator inside the derived references.
pub open spec fn uri_slash() -> Seq<u8> {
    seq![47]
}

/// Label that opens the tag section of the attribute buffer: `tags:`.
pub open spec fn tags_key_name() -> Seq<u8> {
    seq![116, 97, 103, 115, 58]
}

/// Image file extension used when deployment supplies none: `.png`.
pub open spec fn default_img_file_extension() -> Seq<u8> {
    seq![46, 112, 110, 103]
}

/// The shortest decimal numeral of `n`, as ASCII digit bytes.
pub open spec fn spec_decimal(n: nat) -> Seq<u8>
    decreases n,
{
    if n < 10 {
        seq![(48 + n) as u8]
    } else {
        spec_decimal(n / 10).push((48 + n % 10) as u8)
    }
}

/// The attribute buffer of the item at `index`: the tag section, a
/// separator, and the metadata file reference, concatenated byte-exactly.
pub open spec fn spec_attributes(tags: Seq<u8>, metadata_base_cid: Seq<u8>, index: nat) -> Seq<u8> {
    tags_key_name() + tags + attr_separator() + metadata_key_name() + metadata_base_cid
        + uri_slash() + spec_decimal(index) + metadata_file_extension()
}

/// The gateway-resolvable image URI of the item at `index`.
pub open spec fn spec_gateway_uri(image_base_cid: Seq<u8>, file_extension: Seq<u8>, index: nat) -> Seq<u8> {
    ipfs_gateway_host() + image_base_cid + uri_slash() + spec_decimal(index) + file_extension
}

/// The content-addressed scheme image URI of the item at `index`.
pub open spec fn spec_scheme_uri(image_base_cid: Seq<u8>, file_extension: Seq<u8>, index: nat) -> Seq<u8> {
    ipfs_scheme() + image_base_cid + uri_slash() + spec_decimal(index) + file_extension
}

/// Appends a copy of `src` to `out`.
pub fn append_bytes(out: &mut Vec<u8>, src: &Vec<u8>)
    ensures
        final(out)@ == old(out)@ + src@,
{
    let mut i: usize = 0;
    while i < src.len()
        invariant
            i <= src.len(),
            out@ == old(out)@ + src@.subrange(0, i as int),
        decreases src.len() - i,
    {
        out.push(src[i]);
        proof {
            assert(out@ =~= old(out)@ + src@.subrange(0, i + 1));
        }
        i += 1;
    }
    proof {
        assert(out@ =~= old(out)@ + src@);
    }
}

/// The decimal numeral of `n` as ASCII bytes, least significant digit last.
pub fn decimal_bytes(n: u64) -> (r: Vec<u8>)
    ensures
        r@ == spec_decimal(n as nat),
    decreases n,
{
    if n < 10 {
        let mut v: Vec<u8> = Vec::new();
        v.push(48 + n as u8);
        proof {
            assert(v@ =~= spec_decimal(n as nat));
        }
        v
    } else {
        let mut v = decimal_bytes(n / 10);
        v.push(48 + (n % 10) as u8);
        v
    }
}

pub(crate) fn append_tags_key(out: &mut Vec<u8>)
    ensures
        final(out)@ == old(out)@ + tags_key_name(),
{
    out.push(116);
    out.push(97);
    out.push(103);
    out.push(115);
    out.push(58);
    proof {
        assert(out@ =~= old(out)@ + tags_key_name());
    }
}

pub(crate) fn append_metadata_key(out: &mut Vec<u8>)
    ensures
        final(out)@ == old(out)@ + metadata_key_name(),
{
    out.push(109);
    out.push(101);
    out.push(116);
    out.push(97);
    out.push(100);
    out.push(97);
    out.push(116);
    out.push(97);
    out.push(58);
    proof {
        assert(out@ =~= old(out)@ + metadata_key_name());
    }
}

pub(crate) fn append_gateway_host(out: &mut Vec<u8>)
    ensures
        final(out)@ == old(out)@ + ipfs_gateway_host(),
{
    out.push(104);
    out.push(116);
    out.push(116);
    out.push(112);
    out.push(115);
    out.push(58);
    out.push(47);
    out.push(47);
    out.push(105);
    out.push(112);
    out.push(102);
    out.push(115);
    out.push(46);
    out.push(105);
    out.push(111);
    out.push(47);
    out.push(105);
    out.push(112);
    out.push(102);
    out.push(115);
    out.push(47);
    proof {
        assert(out@ =~= old(out)@ + ipfs_gateway_host());
    }
}

pub(crate) fn append_scheme(out: &mut Vec<u8>)
    ensures
        final(out)@ == old(out)@ + ipfs_scheme(),
{
    out.push(105);
    out.push(112);
    out.push(102);
    out.push(115);
    out.push(58);
    out.push(47);
    out.push(47);
    proof {
        assert(out@ =~= old(out)@ + ipfs_scheme());
    }
}

pub(crate) fn append_json_extension(out: &mut Vec<u8>)
    ensures
        final(out)@ == old(out)@ + metadata_file_extension(),
{
    out.push(46);
    out.push(106);
    out.push(115);
    out.push(111);
    out.push(110);
    proof {
        assert(out@ =~= old(out)@ + metadata_file_extension());
    }
}

/// The image file extension a deployment falls back to: `.png`.
pub fn png_extension() -> (r: Vec<u8>)
    ensures
        r@ == default_img_file_extension(),
{
    let mut v: Vec<u8> = Vec::new();
    v.push(46);
    v.push(112);
    v.push(110);
    v.push(103);
    proof {
        assert(v@ =~= default_img_file_extension());
    }
    v
}

} // verus!

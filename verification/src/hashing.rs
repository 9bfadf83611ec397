//! Content digests of local files, fed chunk by chunk as the file is read.

use sha1::Digest;
use vstd::prelude::*;

verus! {

#[verifier::external_type_specification]
#[verifier::external_body]
pub struct ExMd5Context(md5::Context);

/// A SHA-1 hasher (`sha1::Sha1`), held whole because Verus cannot take the
/// declaration of its generic wrapper type.
#[verifier::external_body]
pub struct Sha1State {
    inner: sha1::Sha1,
}

/// The bytes an md5 context has consumed.
pub uninterp spec fn md5_input(ctx: md5::Context) -> Seq<u8>;

/// The bytes a SHA-1 hasher has consumed.
pub uninterp spec fn sha1_input(h: Sha1State) -> Seq<u8>;

/// What the `md5` crate computes for `data`, written as lower-case hex.
pub uninterp spec fn md5_hex_of(data: Seq<u8>) -> Seq<char>;

/// What the `sha1` crate computes for `data`, written as lower-case hex.
pub uninterp spec fn sha1_hex_of(data: Seq<u8>) -> Seq<char>;

/// `md5::Context::new`: a context that has consumed nothing.
#[verifier::external_body]
fn md5_new() -> (r: md5::Context)
    ensures
        md5_input(r) == Seq::<u8>::empty(),
{
    md5::Context::new()
}

/// `md5::Context::consume`: feeds more bytes.
#[verifier::external_body]
fn md5_consume(ctx: &mut md5::Context, data: &[u8])
    ensures
        md5_input(*final(ctx)) == md5_input(*old(ctx)) + data@,
{
    ctx.consume(data);
}

/// `md5::Context::compute`, formatted with `{:x}`: the digest of everything
/// consumed.
#[verifier::external_body]
fn md5_hex(ctx: md5::Context) -> (r: String)
    ensures
        r@ == md5_hex_of(md5_input(ctx)),
{
    format!("{:x}", ctx.compute())
}

/// `Sha1::new`: a hasher that has consumed nothing.
#[verifier::external_body]
fn sha1_new() -> (r: Sha1State)
    ensures
        sha1_input(r) == Seq::<u8>::empty(),
{
    Sha1State { inner: sha1::Sha1::new() }
}

/// `Digest::update` of a SHA-1 hasher: feeds more bytes.
#[verifier::external_body]
fn sha1_update(h: &mut Sha1State, data: &[u8])
    ensures
        sha1_input(*final(h)) == sha1_input(*old(h)) + data@,
{
    h.inner.update(data);
}

/// `Digest::finalize` of a SHA-1 hasher, formatted with `{:x}`: the digest of
/// everything consumed.
#[verifier::external_body]
fn sha1_hex(h: Sha1State) -> (r: String)
    ensures
        r@ == sha1_hex_of(sha1_input(h)),
{
    format!("{:x}", h.inner.finalize())
}

/// The size and digests of a local file, with the name it is uploaded as.
#[derive(Debug, Clone)]
pub struct HashOutput {
    pub name: String,
    pub size: u64,
    pub md5: String,
    pub sha1: String,
}

/// Computes the size, md5 and SHA-1 of a file as it is read.
pub struct FileHasher {
    md5: md5::Context,
    sha1: Sha1State,
    size: u64,
}

impl FileHasher {
    /// The bytes consumed so far.
    pub closed spec fn consumed(&self) -> Seq<u8> {
        md5_input(self.md5)
    }

    /// Both digests have seen the same bytes, and the size counts them.
    pub closed spec fn wf(&self) -> bool {
        &&& sha1_input(self.sha1) == md5_input(self.md5)
        &&& self.size == md5_input(self.md5).len()
    }

    /// A hasher that has seen nothing.
    pub fn new() -> (r: Self)
        ensures
            r.wf(),
            r.consumed() == Seq::<u8>::empty(),
    {
        FileHasher { md5: md5_new(), sha1: sha1_new(), size: 0 }
    }

    /// Feeds the next chunk of the file.
    pub fn consume(&mut self, chunk: &[u8])
        requires
            old(self).wf(),
            old(self).consumed().len() + chunk@.len() <= u64::MAX,
        ensures
            final(self).wf(),
            final(self).consumed() == old(self).consumed() + chunk@,
    {
        md5_consume(&mut self.md5, chunk);
        sha1_update(&mut self.sha1, chunk);
        self.size = self.size + chunk.len() as u64;
    }

    /// The file's size and digests, under the upload name `name`.
    pub fn finish(self, name: String) -> (r: HashOutput)
        requires
            self.wf(),
        ensures
            r.name == name,
            r.size == self.consumed().len(),
            r.md5@ == md5_hex_of(self.consumed()),
            r.sha1@ == sha1_hex_of(self.consumed()),
    {
        let size = self.size;
        HashOutput { name, size, md5: md5_hex(self.md5), sha1: sha1_hex(self.sha1) }
    }
}

/// Computes the md5 of a file as it is read.
pub struct Md5Hasher {
    md5: md5::Context,
}

impl Md5Hasher {
    /// The bytes consumed so far.
    pub closed spec fn consumed(&self) -> Seq<u8> {
        md5_input(self.md5)
    }

    /// A hasher that has seen nothing.
    pub fn new() -> (r: Self)
        ensures
            r.consumed() == Seq::<u8>::empty(),
    {
        Md5Hasher { md5: md5_new() }
    }

    /// Feeds the next chunk of the file.
    pub fn consume(&mut self, chunk: &[u8])
        ensures
            final(self).consumed() == old(self).consumed() + chunk@,
    {
        md5_consume(&mut self.md5, chunk);
    }

    /// The lower-case hex md5 of everything consumed.
    pub fn finish(self) -> (r: String)
        ensures
            r@ == md5_hex_of(self.consumed()),
    {
        md5_hex(self.md5)
    }
}

} // verus!

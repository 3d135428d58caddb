//! The streaming fetch protocol.
//!
//! A fetch is driven from outside: the driver issues the GET, then feeds
//! the response status, the content length, and each delivered chunk into a
//! [`Download`] value, writing every chunk to the temporary sibling file as
//! it is accepted here. The `Download` accounts for every byte, so that on
//! success the bytes returned in memory are exactly the bytes handed to the
//! temporary file, chunk for chunk, in arrival order.

use vstd::prelude::*;
use vstd::string::StringExecFns;
use crate::error::LoadError;
use crate::text::{decimal, spec_decimal};

verus! {

/// An HTTP status code counts as success exactly when it lies in the 2xx
/// range.
pub open spec fn spec_is_success_status(status: u16) -> bool {
    200 <= status < 300
}

/// Decides whether an HTTP status code is a success status (2xx).
pub fn is_success_status(status: u16) -> (r: bool)
    ensures
        r == spec_is_success_status(status),
{
    200 <= status && status < 300
}

/// The temporary sibling of a destination path: `<destination>.tmp`. All
/// streamed bytes go there; the destination itself is only ever touched by
/// the final rename.
pub open spec fn spec_tmp_path(dest: Seq<char>) -> Seq<char> {
    dest + ".tmp"@
}

/// A temporary artifact is never mistaken for a cache entry: the
/// temporary sibling path differs from the destination path it serves, so
/// a cache probe of the destination never sees a partial transfer.
pub proof fn lemma_tmp_is_not_the_destination(dest: Seq<char>)
    ensures
        spec_tmp_path(dest) != dest,
{
    reveal_strlit(".tmp");
    assert(spec_tmp_path(dest).len() == dest.len() + 4);
}

/// Derives the temporary sibling path of a destination path.
pub fn tmp_path(dest: &str) -> (r: String)
    ensures
        r@ == spec_tmp_path(dest@),
{
    let mut r = dest.to_owned();
    r.append(".tmp");
    r
}

/// Declares `reqwest::Url`, the parsed-URL type of the HTTP client, so it
/// can stand in signatures. It is opaque here: the library only carries a
/// parsed URL through to the driver that issues the GET.
#[verifier::external_type_specification]
#[verifier::external_body]
pub struct ExUrl(reqwest::Url);

/// Whether the URL parser accepts a string; acceptance depends on the
/// string alone.
pub uninterp spec fn url_accepted(s: Seq<char>) -> bool;

/// Relies on `reqwest::Url::parse` (the WHATWG URL parser): it returns a
/// parsed URL exactly when it accepts the string, and acceptance is a
/// function of the string alone.
#[verifier::external_body]
fn parse_url(s: &str) -> (r: Option<reqwest::Url>)
    ensures
        r is Some <==> url_accepted(s@),
{
    match reqwest::Url::parse(s) {
        Ok(u) => Some(u),
        Err(_) => None,
    }
}

/// Everything the driver needs to perform one fetch: the parsed URL to GET,
/// the destination path, and the temporary sibling path to stream into.
pub struct FetchTarget {
    /// The parsed remote URL.
    pub url: reqwest::Url,
    /// The final destination path of the cache entry.
    pub dest: String,
    /// The temporary sibling path written during the transfer.
    pub tmp: String,
}

/// Prepares a fetch: parses the source URL and derives the temporary
/// sibling of the destination path. Fails exactly when the URL parser
/// rejects the source text.
pub fn fetch_target(url_text: &str, dest: &str) -> (r: Result<FetchTarget, LoadError>)
    ensures
        r is Ok <==> url_accepted(url_text@),
        r is Ok ==> (r->Ok_0).dest@ == dest@,
        r is Ok ==> (r->Ok_0).tmp@ == spec_tmp_path(dest@),
        r is Err ==> r->Err_0 == LoadError::InvalidUrl,
{
    match parse_url(url_text) {
        Some(url) => Ok(
            FetchTarget { url, dest: dest.to_owned(), tmp: tmp_path(dest) },
        ),
        None => Err(LoadError::InvalidUrl),
    }
}

/// The concatenation of a sequence of chunks, in arrival order.
pub open spec fn concat_chunks(chunks: Seq<Seq<u8>>) -> Seq<u8>
    decreases chunks.len(),
{
    if chunks.len() == 0 {
        Seq::<u8>::empty()
    } else {
        concat_chunks(chunks.drop_last()) + chunks.last()
    }
}

/// Appending one chunk extends the concatenation by exactly that chunk.
pub proof fn lemma_concat_chunks_push(chunks: Seq<Seq<u8>>, c: Seq<u8>)
    ensures
        concat_chunks(chunks.push(c)) == concat_chunks(chunks) + c,
{
    assert(chunks.push(c).drop_last() =~= chunks);
    assert(chunks.push(c).last() == c);
}

/// An in-flight transfer: the accepted response together with every chunk
/// delivered so far. The in-memory buffer always equals the concatenation
/// of the accepted chunks, which is also exactly what the driver has been
/// handed to write to the temporary file.
pub struct Download {
    buf: Vec<u8>,
    total: Option<u64>,
    chunks: Ghost<Seq<Seq<u8>>>,
}

impl Download {
    /// The bytes accumulated in memory so far.
    pub closed spec fn bytes(self) -> Seq<u8> {
        self.buf@
    }

    /// The chunks accepted so far, in arrival order.
    pub closed spec fn chunk_log(self) -> Seq<Seq<u8>> {
        self.chunks@
    }

    /// The content length announced by the response, if any.
    pub closed spec fn content_length(self) -> Option<u64> {
        self.total
    }

    /// The buffer holds exactly the accepted chunks, in order.
    pub closed spec fn wf(self) -> bool {
        self.buf@ == concat_chunks(self.chunks@)
    }

    /// Accepts or rejects a response. A transfer starts exactly when the
    /// status is a success status; any other status fails immediately,
    /// surfacing that status, and nothing is ever written.
    pub fn begin(status: u16, content_length: Option<u64>) -> (r: Result<Download, LoadError>)
        ensures
            r is Ok <==> spec_is_success_status(status),
            r is Err ==> r->Err_0 == LoadError::HttpStatus(status),
            r is Ok ==> (r->Ok_0).wf(),
            r is Ok ==> (r->Ok_0).bytes() == Seq::<u8>::empty(),
            r is Ok ==> (r->Ok_0).chunk_log() == Seq::<Seq<u8>>::empty(),
            r is Ok ==> (r->Ok_0).content_length() == content_length,
    {
        if is_success_status(status) {
            Ok(Download { buf: Vec::new(), total: content_length, chunks: Ghost(Seq::empty()) })
        } else {
            Err(LoadError::HttpStatus(status))
        }
    }

    /// Accepts one delivered chunk: appends it to the in-memory buffer and
    /// records it in the chunk log. The driver writes the same chunk to the
    /// temporary file before asking for the next one, so buffer and file
    /// stay in lock-step with network delivery order.
    pub fn push_chunk(&mut self, chunk: &[u8])
        requires
            old(self).wf(),
        ensures
            final(self).wf(),
            final(self).bytes() == old(self).bytes() + chunk@,
            final(self).chunk_log() == old(self).chunk_log().push(chunk@),
            final(self).content_length() == old(self).content_length(),
    {
        let n = chunk.len();
        let mut i: usize = 0;
        while i < n
            invariant
                n == chunk@.len(),
                i <= n,
                self.buf@ == old(self).buf@ + chunk@.subrange(0, i as int),
                self.total == old(self).total,
                self.chunks == old(self).chunks,
            decreases n - i,
        {
            self.buf.push(chunk[i]);
            proof {
                assert(old(self).buf@ + chunk@.subrange(0, i + 1) =~= (old(self).buf@
                    + chunk@.subrange(0, i as int)).push(chunk@[i as int]));
            }
            i = i + 1;
        }
        proof {
            assert(chunk@.subrange(0, n as int) =~= chunk@);
        }
        let ghost logged = self.chunks@.push(chunk@);
        self.chunks = Ghost(logged);
        proof {
            lemma_concat_chunks_push(old(self).chunks@, chunk@);
        }
    }

    /// The number of bytes transferred so far.
    pub fn transferred(&self) -> (r: u64)
        ensures
            r == self.bytes().len(),
    {
        self.buf.len() as u64
    }

    /// A progress report over the current state of the transfer.
    pub fn progress(&self) -> (p: Progress)
        ensures
            p.transferred == self.bytes().len(),
            p.total == self.content_length(),
            p.percent == spec_percent(p.transferred, p.total),
    {
        let transferred = self.transferred();
        let percent: Option<u64> = match self.total {
            Some(t) => {
                if t > 0 {
                    let q: u128 = (transferred as u128) * 100 / (t as u128);
                    if q > u64::MAX as u128 {
                        Some(u64::MAX)
                    } else {
                        Some(q as u64)
                    }
                } else {
                    None
                }
            },
            None => None,
        };
        Progress { transferred, total: self.total, percent }
    }

    /// A well-formed transfer's in-memory bytes are exactly the
    /// concatenation of its accepted chunks.
    pub proof fn lemma_bytes_are_chunks(self)
        requires
            self.wf(),
        ensures
            self.bytes() == concat_chunks(self.chunk_log()),
    {
    }

    /// Completes the transfer, handing the accumulated bytes to the caller.
    /// They are exactly the concatenation of the accepted chunks — the same
    /// bytes, in the same order, that the driver wrote to the temporary
    /// file.
    pub fn finish(self) -> (r: Vec<u8>)
        requires
            self.wf(),
        ensures
            r@ == self.bytes(),
            r@ == concat_chunks(self.chunk_log()),
    {
        self.buf
    }
}

/// The percentage shown for a transfer: only known when the response
/// announced a positive content length, and capped at the counter's range.
pub open spec fn spec_percent(transferred: u64, total: Option<u64>) -> Option<u64> {
    match total {
        Some(t) => if t > 0 {
            if transferred as int * 100 / t as int > u64::MAX {
                Some(u64::MAX)
            } else {
                Some((transferred as int * 100 / t as int) as u64)
            }
        } else {
            None
        },
        None => None,
    }
}

/// A snapshot of how far a transfer has come.
#[derive(Clone, Copy, PartialEq, Eq, Debug)]
pub struct Progress {
    /// Bytes transferred so far.
    pub transferred: u64,
    /// The announced content length, if any.
    pub total: Option<u64>,
    /// Whole percent transferred, when the content length is known and
    /// positive.
    pub percent: Option<u64>,
}

/// The one-line notice shown after each chunk: bytes transferred, the total
/// and a percentage when the content length is known, bytes alone when not.
pub open spec fn spec_progress_line(p: Progress) -> Seq<char> {
    match (p.total, p.percent) {
        (Some(t), Some(pc)) => "downloaded "@ + spec_decimal(p.transferred as nat) + " / "@
            + spec_decimal(t as nat) + " bytes ("@ + spec_decimal(pc as nat) + "%)"@,
        _ => "downloaded "@ + spec_decimal(p.transferred as nat) + " bytes"@,
    }
}

impl Progress {
    /// Renders the human-readable progress line for this snapshot.
    pub fn line(&self) -> (r: String)
        ensures
            r@ == spec_progress_line(*self),
    {
        match (self.total, self.percent) {
            (Some(t), Some(pc)) => {
                let mut r = "downloaded ".to_owned();
                let a = decimal(self.transferred);
                r.append(a.as_str());
                r.append(" / ");
                let b = decimal(t);
                r.append(b.as_str());
                r.append(" bytes (");
                let c = decimal(pc);
                r.append(c.as_str());
                r.append("%)");
                r
            },
            _ => {
                let mut r = "downloaded ".to_owned();
                let a = decimal(self.transferred);
                r.append(a.as_str());
                r.append(" bytes");
                r
            },
        }
    }
}

} // verus!

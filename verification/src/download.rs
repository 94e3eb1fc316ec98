//! The download engine's decisions for one resource: where the file goes,
//! what each received chunk adds, and what the transfer amounts to once its
//! stream has ended. The caller performs the request and the writes.

use crate::hash::{absorbed, hasher_compute, hasher_consume, hasher_new, hex_matches, hex_of,
    md5_digest, same_hex, to_hex};
use crate::locator::ResolvedDownload;
use crate::paths::{resolve_path, safe_components, texts};
use crate::progress::Progress;
use vstd::prelude::*;
use vstd::string::StringExecFns;

verus! {

/// How the download of one resource ended.
#[derive(Debug, PartialEq)]
pub enum DownloadOutcome {
    /// The file arrived and its hash is the declared one. Holds the number
    /// of bytes written.
    Success(u64),
    /// The file arrived, but its hash is not the declared one.
    HashMismatch { expected: String, actual: String },
    /// The transfer failed or was interrupted. Holds the cause.
    TransferError(String),
    /// The destination is not a file below the output root. Holds the
    /// destination as the manifest gave it.
    UnsafePath(String),
}

/// An outcome as plain text.
pub enum OutcomeView {
    Success(u64),
    HashMismatch { expected: Seq<char>, actual: Seq<char> },
    TransferError(Seq<char>),
    UnsafePath(Seq<char>),
}

impl View for DownloadOutcome {
    type V = OutcomeView;

    open spec fn view(&self) -> OutcomeView {
        match self {
            DownloadOutcome::Success(n) => OutcomeView::Success(*n),
            DownloadOutcome::HashMismatch { expected, actual } => OutcomeView::HashMismatch {
                expected: expected@,
                actual: actual@,
            },
            DownloadOutcome::TransferError(cause) => OutcomeView::TransferError(cause@),
            DownloadOutcome::UnsafePath(path) => OutcomeView::UnsafePath(path@),
        }
    }
}

impl Clone for DownloadOutcome {
    fn clone(&self) -> (copy: DownloadOutcome)
        ensures
            copy@ == self@,
    {
        match self {
            DownloadOutcome::Success(n) => DownloadOutcome::Success(*n),
            DownloadOutcome::HashMismatch { expected, actual } => DownloadOutcome::HashMismatch {
                expected: expected.clone(),
                actual: actual.clone(),
            },
            DownloadOutcome::TransferError(cause) => DownloadOutcome::TransferError(cause.clone()),
            DownloadOutcome::UnsafePath(path) => DownloadOutcome::UnsafePath(path.clone()),
        }
    }
}

impl DownloadOutcome {
    /// Whether the temporary file is to be moved to its final place. Only a
    /// verified file is; after a mismatch it stays under its temporary name.
    pub fn commits(&self) -> (yes: bool)
        ensures
            yes == (self@ is Success),
    {
        match self {
            DownloadOutcome::Success(_) => true,
            _ => false,
        }
    }
}

/// The suffix of the name under which a file is written until it is verified.
pub open spec fn temp_suffix() -> Seq<char> {
    ".part"@
}

/// Where one resource is fetched from and where it is put.
#[derive(Debug, Clone, PartialEq)]
pub struct DownloadPlan {
    /// Absolute URL of the file.
    pub url: String,
    /// The hex-encoded hash that the manifest declares for the file.
    pub expected_hash: String,
    /// The directories to enter below the output root, outermost first.
    pub directories: Vec<String>,
    /// The file's final name in the innermost directory.
    pub file_name: String,
    /// The name, in the same directory, under which the file is written
    /// until it is verified.
    pub temp_name: String,
}

impl DownloadPlan {
    /// The plan is the one for `resolved`, whose destination resolves to
    /// `components`.
    pub open spec fn is_for(&self, resolved: &ResolvedDownload, components: Seq<Seq<char>>) -> bool {
        &&& components.len() > 0
        &&& self.url@ == resolved.url@
        &&& self.expected_hash@ == resolved.expected_hash@
        &&& texts(self.directories@) == components.drop_last()
        &&& self.file_name@ == components.last()
        &&& self.temp_name@ == components.last() + temp_suffix()
    }
}

/// Plans the download of `resolved`, or refuses it with `UnsafePath` if its
/// destination is not a file below the output root.
pub fn plan_download(resolved: &ResolvedDownload) -> (planned: Result<DownloadPlan, DownloadOutcome>)
    ensures
        match planned {
            Ok(plan) => resolve_path(resolved.local_path@) matches Some(components) && plan.is_for(
                resolved,
                components,
            ),
            Err(refusal) => resolve_path(resolved.local_path@) is None && refusal@
                == OutcomeView::UnsafePath(resolved.local_path@),
        },
{
    match safe_components(resolved.local_path.as_str()) {
        None => Err(DownloadOutcome::UnsafePath(resolved.local_path.clone())),
        Some(components) => {
            let ghost whole = components@;
            let mut directories = components;
            let popped = directories.pop();
            let file_name = popped.unwrap();
            let mut temp_name = file_name.clone();
            temp_name.append(".part");
            assert(texts(directories@) =~= texts(whole).drop_last());
            Ok(
                DownloadPlan {
                    url: resolved.url.clone(),
                    expected_hash: resolved.expected_hash.clone(),
                    directories,
                    file_name,
                    temp_name,
                },
            )
        },
    }
}

/// The count of `len` bytes in 64 bits: exact as long as it fits.
pub open spec fn capped(len: nat) -> u64 {
    if len > u64::MAX {
        u64::MAX
    } else {
        len as u64
    }
}

/// What a finished stream amounts to: success with the number of bytes if
/// the hex form of the content's digest is the declared hash, whatever the
/// case of its digits; otherwise a mismatch that names both.
pub open spec fn verdict(expected: Seq<char>, content: Seq<u8>) -> OutcomeView {
    let actual = hex_of(md5_digest(content));
    if same_hex(expected, actual) {
        OutcomeView::Success(capped(content.len()))
    } else {
        OutcomeView::HashMismatch { expected, actual }
    }
}

/// A finished stream is a success exactly if the digest of what arrived,
/// in hex, is the declared hash up to the case of its digits; otherwise it is
/// a mismatch. It is never reported as anything else.
pub proof fn lemma_verdict_follows_hash(expected: Seq<char>, content: Seq<u8>)
    ensures
        verdict(expected, content) is Success <==> same_hex(
            expected,
            hex_of(md5_digest(content)),
        ),
        verdict(expected, content) is Success || verdict(expected, content) is HashMismatch,
{
}

/// A transfer in progress: the declared hash, the announced length, and the
/// running hash and count of what has arrived.
pub struct Transfer {
    expected_hash: String,
    total: Option<u64>,
    received: u64,
    hasher: md5::Context,
}

impl Transfer {
    #[verifier::type_invariant]
    spec fn counted(&self) -> bool {
        self.received == capped(absorbed(self.hasher).len())
    }

    /// The bytes received so far.
    pub closed spec fn content(&self) -> Seq<u8> {
        absorbed(self.hasher)
    }

    /// The hash that the manifest declares.
    pub closed spec fn expected(&self) -> Seq<char> {
        self.expected_hash@
    }

    /// The length that the server announced, if any.
    pub closed spec fn announced(&self) -> Option<u64> {
        self.total
    }

    /// Starts a transfer once the response has begun. `content_length` is
    /// the length the server announced, if it announced one.
    pub fn begin(plan: &DownloadPlan, content_length: Option<u64>) -> (transfer: Transfer)
        ensures
            transfer.content() == Seq::<u8>::empty(),
            transfer.expected() == plan.expected_hash@,
            transfer.announced() == content_length,
    {
        Transfer {
            expected_hash: plan.expected_hash.clone(),
            total: content_length,
            received: 0,
            hasher: hasher_new(),
        }
    }

    /// Takes in one chunk of the body. The chunk is to be written to the
    /// temporary file as it is; the report says how far the transfer is.
    pub fn on_chunk(self, chunk: &[u8]) -> (next: (Transfer, Progress))
        ensures
            next.0.content() == self.content() + chunk@,
            next.0.expected() == self.expected(),
            next.0.announced() == self.announced(),
            next.1.received == capped(next.0.content().len()),
            next.1.total == self.announced(),
    {
        proof {
            use_type_invariant(&self);
        }
        let Transfer { expected_hash, total, received, hasher } = self;
        let mut hasher = hasher;
        hasher_consume(&mut hasher, chunk);
        let added: u64 = chunk.len() as u64;
        let received: u64 = if added > u64::MAX - received {
            u64::MAX
        } else {
            received + added
        };
        (Transfer { expected_hash, total, received, hasher }, Progress { received, total })
    }

    /// Ends the transfer when the stream has ended: compares the hash of
    /// what arrived with the declared one.
    pub fn finish(self) -> (outcome: DownloadOutcome)
        ensures
            outcome@ == verdict(self.expected(), self.content()),
    {
        proof {
            use_type_invariant(&self);
        }
        let Transfer { expected_hash, total: _, received, hasher } = self;
        let digest = hasher_compute(hasher);
        let actual = to_hex(digest.as_slice());
        if hex_matches(expected_hash.as_str(), actual.as_str()) {
            DownloadOutcome::Success(received)
        } else {
            DownloadOutcome::HashMismatch { expected: expected_hash, actual }
        }
    }

    /// Ends the transfer when the stream broke off or a write failed.
    /// Whatever had arrived, the outcome is the error.
    pub fn interrupted(self, cause: String) -> (outcome: DownloadOutcome)
        ensures
            outcome@ == OutcomeView::TransferError(cause@),
    {
        DownloadOutcome::TransferError(cause)
    }
}

} // verus!

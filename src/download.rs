use vstd::prelude::*;

use crate::naming::{decimal, decimal_string, lemma_decimal_parses_back, parse_u64, parsed_u64};

verus! {

/// Errors of the downloader.
#[derive(Debug, Clone)]
pub enum FileError {
    DownloadFailed(String),
    IoError(String),
    ReqwestError(String),
    TokioIoError(String),
}

/// Whole attempts made before giving up.
pub const MAX_RETRIES: u32 = 5;

/// Seconds waited between attempts.
pub const RETRY_DELAY_SECS: u64 = 5;

pub const PARTIAL_CONTENT: u16 = 206;

pub open spec fn part_path(destination: Seq<char>) -> Seq<char> {
    destination + ".part"@
}

/// The sibling file that holds a download until it is complete.
pub fn get_temp_path(destination: &str) -> (r: String)
    ensures
        r@ == part_path(destination@),
{
    proof {
        reveal_strlit(".part");
    }
    let mut s = String::from_str(destination);
    s.append(".part");
    s
}

pub open spec fn range_value(from: nat) -> Seq<char> {
    "bytes="@ + decimal(from) + "-"@
}

/// Value of the `Range` header that asks for everything from byte `from` on.
pub fn range_header(from: u64) -> (r: String)
    ensures
        r@ == range_value(from as nat),
{
    proof {
        reveal_strlit("bytes=");
        reveal_strlit("-");
    }
    let mut s = String::from_str("bytes=");
    let digits = decimal_string(from);
    s.append(digits.as_str());
    s.append("-");
    s
}

/// The part of a string after its last `/` (all of it when it has none).
pub open spec fn last_segment(s: Seq<char>) -> Seq<char>
    decreases s.len(),
{
    if s.len() == 0 {
        s
    } else if s.last() == '/' {
        Seq::empty()
    } else {
        last_segment(s.drop_last()).push(s.last())
    }
}

/// Finds where the last segment of a string starts.
fn last_segment_start(s: &str) -> (r: usize)
    ensures
        r <= s@.len(),
        s@.skip(r as int) == last_segment(s@),
{
    let n = s.unicode_len();
    let mut i: usize = n;
    proof {
        assert(s@.take(n as int) =~= s@);
        assert(last_segment(s@) + s@.skip(n as int) =~= last_segment(s@));
    }
    while i > 0
        invariant
            i <= n,
            n == s@.len(),
            forall|t: int| i <= t < n ==> s@[t] != '/',
            last_segment(s@) == last_segment(s@.take(i as int)) + s@.skip(i as int),
        decreases i,
    {
        let ghost pre = s@.take(i as int);
        proof {
            assert(pre.drop_last() =~= s@.take(i - 1));
            assert(pre.last() == s@[i - 1]);
        }
        if s.get_char(i - 1) == '/' {
            proof {
                assert(last_segment(pre) =~= Seq::<char>::empty());
                assert(last_segment(s@) =~= s@.skip(i as int));
            }
            return i;
        }
        proof {
            assert(s@.skip(i - 1) =~= seq![s@[i - 1]] + s@.skip(i as int));
            assert(last_segment(s@.take(i - 1)) + s@.skip(i - 1) =~= last_segment(pre)
                + s@.skip(i as int));
        }
        i = i - 1;
    }
    proof {
        assert(s@.take(0) =~= Seq::<char>::empty());
        assert(last_segment(s@) =~= s@.skip(0));
    }
    0
}

/// The total size that a `Content-Range` value announces (`bytes a-b/total`), or
/// `fallback` when it announces none that can be read.
pub open spec fn announced_total(content_range: Seq<char>, fallback: u64) -> u64 {
    match parsed_u64(last_segment(content_range)) {
        Some(t) => t,
        None => fallback,
    }
}

pub fn content_range_total(content_range: &str, fallback: u64) -> (r: u64)
    ensures
        r == announced_total(content_range@, fallback),
{
    let start = last_segment_start(content_range);
    let tail = content_range.substring_char(start, content_range.unicode_len());
    proof {
        assert(tail@ =~= content_range@.skip(start as int));
    }
    match parse_u64(tail) {
        Some(t) => t,
        None => fallback,
    }
}

pub open spec fn is_success(status: u16) -> bool {
    200 <= status <= 299
}

/// Where an attempt starts writing and how many bytes the file must hold at the end.
#[derive(Debug, Clone, Copy, PartialEq, Eq, Structural)]
pub struct TransferStart {
    pub start_byte: u64,
    pub total_size: u64,
}

/// How an attempt proceeds after the response arrives, or `None` when the status is
/// an error. When resuming from `existing > 0` bytes, a partial-content answer
/// continues at `existing` with the total from `Content-Range`; any other success
/// starts again at byte 0 with the total from `Content-Length`.
pub open spec fn transfer_start(
    existing: u64,
    status: u16,
    content_range: Option<Seq<char>>,
    content_length: Option<u64>,
) -> Option<TransferStart> {
    if existing > 0 && status == PARTIAL_CONTENT {
        Some(
            TransferStart {
                start_byte: existing,
                total_size: match content_range {
                    Some(cr) => announced_total(cr, existing),
                    None => existing,
                },
            },
        )
    } else if is_success(status) {
        Some(
            TransferStart {
                start_byte: 0,
                total_size: match content_length {
                    Some(l) => l,
                    None => 0,
                },
            },
        )
    } else {
        None
    }
}

pub open spec fn http_error_message(status: u16) -> Seq<char> {
    "HTTP error: "@ + decimal(status as nat)
}

pub open spec fn opt_view(o: Option<String>) -> Option<Seq<char>> {
    match o {
        Some(s) => Some(s@),
        None => None,
    }
}

/// Decides, from the response of an attempt, where writing starts and what total
/// to expect.
pub fn plan_transfer(
    existing_size: u64,
    status: u16,
    content_range: Option<String>,
    content_length: Option<u64>,
) -> (r: Result<TransferStart, FileError>)
    ensures
        r is Ok <==> transfer_start(
            existing_size,
            status,
            opt_view(content_range),
            content_length,
        ) is Some,
        r is Ok ==> r->Ok_0 == transfer_start(
            existing_size,
            status,
            opt_view(content_range),
            content_length,
        )->Some_0,
        r is Err ==> (r matches Err(FileError::DownloadFailed(m)) && m@ == http_error_message(
            status,
        )),
{
    if existing_size > 0 && status == PARTIAL_CONTENT {
        let total = match &content_range {
            Some(cr) => content_range_total(cr.as_str(), existing_size),
            None => existing_size,
        };
        Ok(TransferStart { start_byte: existing_size, total_size: total })
    } else if 200 <= status && status <= 299 {
        let total = match content_length {
            Some(l) => l,
            None => 0,
        };
        Ok(TransferStart { start_byte: 0, total_size: total })
    } else {
        proof {
            reveal_strlit("HTTP error: ");
        }
        let mut m = String::from_str("HTTP error: ");
        let code = decimal_string(status as u64);
        m.append(code.as_str());
        Err(FileError::DownloadFailed(m))
    }
}

pub open spec fn incomplete_message(got: nat, total: nat) -> Seq<char> {
    "Incomplete download: got "@ + decimal(got) + " of "@ + decimal(total) + " bytes"@
}

/// Bytes written by one attempt, on top of the prefix it resumed from.
#[derive(Debug, Clone, Copy, PartialEq, Eq, Structural)]
pub struct Transfer {
    pub start_byte: u64,
    pub total_size: u64,
    pub received: u64,
}

impl Transfer {
    pub open spec fn on_disk(&self) -> int {
        self.start_byte + self.received
    }

    pub fn begin(start: TransferStart) -> (r: Transfer)
        ensures
            r.start_byte == start.start_byte,
            r.total_size == start.total_size,
            r.received == 0,
    {
        Transfer { start_byte: start.start_byte, total_size: start.total_size, received: 0 }
    }

    /// Counts a chunk written to the temporary file.
    pub fn record_chunk(&mut self, len: u64)
        requires
            old(self).start_byte + old(self).received + len <= u64::MAX,
        ensures
            final(self).received == old(self).received + len,
            final(self).start_byte == old(self).start_byte,
            final(self).total_size == old(self).total_size,
    {
        self.received = self.received + len;
    }

    /// Bytes the temporary file holds now.
    pub fn downloaded(&self) -> (r: u64)
        requires
            self.start_byte + self.received <= u64::MAX,
        ensures
            r == self.on_disk(),
    {
        self.start_byte + self.received
    }

    /// A known total that was not reached is a failure, not a success.
    pub fn finish(&self) -> (r: Result<(), FileError>)
        requires
            self.start_byte + self.received <= u64::MAX,
        ensures
            r is Err <==> self.total_size > 0 && self.on_disk() < self.total_size,
            r is Err ==> (r matches Err(FileError::DownloadFailed(m)) && m@ == incomplete_message(
                self.on_disk() as nat,
                self.total_size as nat,
            )),
    {
        let downloaded = self.start_byte + self.received;
        if self.total_size > 0 && downloaded < self.total_size {
            proof {
                reveal_strlit("Incomplete download: got ");
                reveal_strlit(" of ");
                reveal_strlit(" bytes");
            }
            let mut m = String::from_str("Incomplete download: got ");
            let got = decimal_string(downloaded);
            m.append(got.as_str());
            m.append(" of ");
            let want = decimal_string(self.total_size);
            m.append(want.as_str());
            m.append(" bytes");
            Err(FileError::DownloadFailed(m))
        } else {
            Ok(())
        }
    }
}

/// What the downloader does after an attempt.
#[derive(Debug, Clone, Copy, PartialEq, Eq, Structural)]
pub enum RetryStep {
    /// Rename the temporary file onto the destination.
    Finish,
    /// Keep the temporary file, wait, and try again.
    RetryAfter { delay_secs: u64 },
    /// Delete the temporary file and report the error.
    GiveUp,
}

/// The step after attempt number `attempt` (counted from 1).
pub fn after_attempt(attempt: u32, succeeded: bool) -> (r: RetryStep)
    ensures
        succeeded ==> r == RetryStep::Finish,
        !succeeded && attempt < MAX_RETRIES ==> r == (RetryStep::RetryAfter {
            delay_secs: RETRY_DELAY_SECS,
        }),
        !succeeded && attempt >= MAX_RETRIES ==> r == RetryStep::GiveUp,
{
    if succeeded {
        RetryStep::Finish
    } else if attempt < MAX_RETRIES {
        RetryStep::RetryAfter { delay_secs: RETRY_DELAY_SECS }
    } else {
        RetryStep::GiveUp
    }
}

proof fn lemma_last_segment_after_slash(pre: Seq<char>, tail: Seq<char>)
    requires
        forall|i: int| 0 <= i < tail.len() ==> tail[i] != '/',
    ensures
        last_segment(pre + seq!['/'] + tail) == tail,
    decreases tail.len(),
{
    let s = pre + seq!['/'] + tail;
    if tail.len() == 0 {
        assert(s.last() == '/');
    } else {
        assert(s.drop_last() =~= pre + seq!['/'] + tail.drop_last());
        lemma_last_segment_after_slash(pre, tail.drop_last());
        assert(s.last() == tail.last());
        assert(last_segment(s) =~= tail);
    }
}

/// A `Content-Range` value as a server that honours a range request from byte
/// `from` of a `total`-byte file writes it.
pub open spec fn honoured_content_range(from: nat, total: nat) -> Seq<char> {
    "bytes "@ + decimal(from) + "-"@ + decimal((total - 1) as nat) + "/"@ + decimal(total)
}

/// Resuming: with `existing` bytes in the temporary file and a server that honours
/// the range request, the request asks for bytes `existing-`, writing continues at
/// `existing`, and once the rest of the file has arrived the temporary file holds
/// exactly the advertised total and the attempt succeeds. With a server that ignores
/// the range and answers with the whole file, writing restarts at byte 0 and the file
/// again ends at the advertised total.
pub proof fn lemma_resume_reaches_total(existing: u64, total: u64)
    requires
        0 < existing <= total,
    ensures
        range_value(existing as nat) == "bytes="@ + decimal(existing as nat) + "-"@,
        ({
            let plan = transfer_start(
                existing,
                PARTIAL_CONTENT,
                Some(honoured_content_range(existing as nat, total as nat)),
                None,
            );
            plan == Some(TransferStart { start_byte: existing, total_size: total })
                && (Transfer {
                start_byte: existing,
                total_size: total,
                received: (total - existing) as u64,
            }).on_disk() == total
        }),
        ({
            let plan = transfer_start(existing, 200, None, Some(total));
            plan == Some(TransferStart { start_byte: 0, total_size: total }) && (Transfer {
                start_byte: 0,
                total_size: total,
                received: total,
            }).on_disk() == total
        }),
{
    let cr = honoured_content_range(existing as nat, total as nat);
    let pre = "bytes "@ + decimal(existing as nat) + "-"@ + decimal((total - 1) as nat);
    reveal_strlit("/");
    assert(cr =~= pre + seq!['/'] + decimal(total as nat));
    crate::naming::lemma_decimal_digits(total as nat);
    assert forall|i: int| 0 <= i < decimal(total as nat).len() implies decimal(total as nat)[i]
        != '/' by {
        assert(crate::naming::is_digit(decimal(total as nat)[i]));
    }
    lemma_last_segment_after_slash(pre, decimal(total as nat));
    lemma_decimal_parses_back(total as nat, u64::MAX as int);
}

} // verus!

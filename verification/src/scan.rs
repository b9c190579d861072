//! Progress bookkeeping for the library scan, and the file filter it uses.
//!
//! Scanning itself — walking directories, reading metadata, upserting rows
//! — is unverified glue around the engine. What is kept here is the status
//! record that scan jobs publish for polling, with its exact transitions,
//! and the decision of which directory entries count as WAV files.

use vstd::prelude::*;

verus! {

/// Published progress of one scan job.
#[derive(Clone, Debug)]
pub struct ScanStatus {
    pub stage: String,
    pub processed: usize,
    pub total: usize,
    pub done: bool,
    pub error: Option<String>,
}

impl Default for ScanStatus {
    /// A job that has not started: stage `idle`, nothing counted, no error.
    fn default() -> (s: ScanStatus)
        ensures
            s.stage@ == "idle"@,
            s.processed == 0,
            s.total == 0,
            !s.done,
            s.error is None,
    {
        ScanStatus {
            stage: "idle".to_owned(),
            processed: 0,
            total: 0,
            done: false,
            error: None,
        }
    }
}

impl ScanStatus {
    /// Enter the scanning stage with the number of files found, none of
    /// them processed yet.
    pub fn begin_scan(&mut self, total: usize)
        ensures
            final(self).stage@ == "scanning"@,
            final(self).total == total,
            final(self).processed == 0,
            final(self).done == old(self).done,
            final(self).error == old(self).error,
    {
        self.stage = "scanning".to_owned();
        self.total = total;
        self.processed = 0;
    }

    /// Count one more file as processed.
    pub fn record_processed(&mut self)
        requires
            old(self).processed < usize::MAX,
        ensures
            final(self).processed == old(self).processed + 1,
            final(self).stage@ == old(self).stage@,
            final(self).total == old(self).total,
            final(self).done == old(self).done,
            final(self).error == old(self).error,
    {
        self.processed = self.processed + 1;
    }

    /// Enter the embedding stage.
    pub fn begin_embedding(&mut self)
        ensures
            final(self).stage@ == "embedding"@,
            final(self).processed == old(self).processed,
            final(self).total == old(self).total,
            final(self).done == old(self).done,
            final(self).error == old(self).error,
    {
        self.stage = "embedding".to_owned();
    }

    /// Mark the job done; any recorded error stands.
    pub fn finish(&mut self)
        ensures
            final(self).stage@ == "done"@,
            final(self).done,
            final(self).processed == old(self).processed,
            final(self).total == old(self).total,
            final(self).error == old(self).error,
    {
        self.stage = "done".to_owned();
        self.done = true;
    }

    /// Record a failure and mark the job done; the stage is left as it was.
    pub fn fail(&mut self, message: String)
        ensures
            final(self).error matches Some(m) && m@ == message@,
            final(self).done,
            final(self).stage@ == old(self).stage@,
            final(self).processed == old(self).processed,
            final(self).total == old(self).total,
    {
        self.error = Some(message);
        self.done = true;
    }
}

/// An extension names a WAV file when it spells `wav` in any letter case.
pub open spec fn spec_is_wav_extension(s: Seq<u8>) -> bool {
    s.len() == 3 && (s[0] == 119 || s[0] == 87)  // 'w' / 'W'
     && (s[1] == 97 || s[1] == 65)  // 'a' / 'A'
     && (s[2] == 118 || s[2] == 86)  // 'v' / 'V'
}

/// Whether a file extension, given as bytes, names a WAV file, compared
/// without regard to ASCII letter case.
pub fn is_wav_extension(ext: &[u8]) -> (r: bool)
    ensures
        r == spec_is_wav_extension(ext@),
{
    ext.len() == 3 && (ext[0] == 119 || ext[0] == 87) && (ext[1] == 97 || ext[1] == 65) && (ext[2]
        == 118 || ext[2] == 86)
}

} // verus!

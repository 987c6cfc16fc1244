//! The arguments given to ffmpeg and what its exit means.

use vstd::prelude::*;

verus! {

/// The ffmpeg program.
pub struct FFmpeg;

/// What can go wrong running ffmpeg.
#[derive(Debug, PartialEq, Eq)]
pub enum FFmpegError {
    /// The file system failed; the message says how.
    Io(String),
    /// ffmpeg is not on the `PATH`.
    FFmpegNotExist,
    /// ffmpeg ran and failed; its standard error.
    Command(String),
}

/// The arguments that merge the playlist at `pl_path` into `output_path`.
pub open spec fn merge_args(pl_path: Seq<char>, output_path: Seq<char>) -> Seq<Seq<char>> {
    seq!["-allowed_extensions ALL"@, "-i "@ + pl_path, "-c copy"@, output_path, "-y"@]
}

impl FFmpeg {
    /// The arguments of the probe that tells whether ffmpeg is installed.
    pub fn exist_args() -> (r: Vec<String>)
        ensures
            r.deep_view() == seq!["-h"@],
    {
        let mut v = Vec::new();
        v.push(String::from_str("-h"));
        assert(v.deep_view() =~= seq!["-h"@]);
        v
    }

    /// The arguments that merge the playlist at `pl_path` into `output_path`.
    pub fn merge_m3u8_args(pl_path: &str, output_path: &str) -> (r: Vec<String>)
        ensures
            r.deep_view() == merge_args(pl_path@, output_path@),
    {
        let mut v = Vec::new();
        v.push(String::from_str("-allowed_extensions ALL"));
        let mut input = String::from_str("-i ");
        input.append(pl_path);
        v.push(input);
        v.push(String::from_str("-c copy"));
        v.push(String::from_str(output_path));
        v.push(String::from_str("-y"));
        assert(v.deep_view() =~= merge_args(pl_path@, output_path@));
        v
    }

    /// What a merge run that exited with `success` and wrote `stderr` means.
    pub fn merge_outcome(success: bool, stderr: String) -> (r: Result<(), FFmpegError>)
        ensures
            success ==> r is Ok,
            !success ==> r == Err::<(), FFmpegError>(FFmpegError::Command(stderr)),
    {
        if !success {
            return Err(FFmpegError::Command(stderr));
        }
        Ok(())
    }
}

} // verus!

//! Transcribe worker decisions: the video-presence requirement, the audio and
//! transcript targets, the tool invocations and the cleanup contract.
//!
//! The extraction and transcription tools are subprocesses run by the
//! surrounding binary; their arguments, their expected outputs and the
//! order of the cleanup steps are computed and checked here.

use vstd::prelude::*;
use vstd::string::StringExecFns;

use crate::config::CleanupConfig;
use crate::model::Job;
use crate::paths::DataPaths;
use crate::paths::spec_sanitize_filename;
use crate::paths::sanitize_filename;
use crate::paths::under_root;
use crate::text::dec_digits;
use crate::text::pad3_digits;
use crate::text::push_pad3;

verus! {

broadcast use vstd::string::group_string_axioms;

/// What the transcribe worker decides before running the tools.
#[derive(Debug)]
pub enum TranscribePlan {
    /// The job record carries no video path: fail without retry.
    MissingVideoPath,
    /// The recorded video file is gone from disk: fail without retry.
    VideoGone { video_path: String },
    /// Extract audio from this video and transcribe it.
    Run { video_path: String },
}

/// The transcription decision: work starts only when the job records a video
/// path and that file is still present on disk. `video_exists` is the
/// caller's answer for the recorded path.
pub fn plan_transcription(job: &Job, video_exists: bool) -> (r: TranscribePlan)
    ensures
        match job.video_path {
            None => r is MissingVideoPath,
            Some(p) => if video_exists {
                r matches TranscribePlan::Run { video_path } && video_path@ == p@
            } else {
                r matches TranscribePlan::VideoGone { video_path } && video_path@ == p@
            },
        },
        r is Run ==> video_exists && job.video_path is Some,
{
    match &job.video_path {
        None => TranscribePlan::MissingVideoPath,
        Some(p) => {
            if video_exists {
                TranscribePlan::Run { video_path: p.clone() }
            } else {
                TranscribePlan::VideoGone { video_path: p.clone() }
            }
        },
    }
}

/// The canonical audio file of an episode:
/// `audio/<catalog id>/<sanitized title>_ep<NNN>.wav`.
pub fn audio_target(paths: &DataPaths, job: &Job) -> (r: String)
    ensures
        r@ == under_root(
            paths@,
            "audio/"@ + dec_digits(job.mal_id as nat) + "/"@ + spec_sanitize_filename(
                job.anime_title@,
            ) + "_ep"@ + pad3_digits(job.episode as nat) + ".wav"@,
        ),
{
    let mut s = paths.audio_dir(job.mal_id);
    s.append("/");
    let safe = sanitize_filename(job.anime_title.as_str());
    s.append(safe.as_str());
    s.append("_ep");
    push_pad3(&mut s, job.episode as u64);
    s.append(".wav");
    proof {
        assert(s@ =~= under_root(
            paths@,
            "audio/"@ + dec_digits(job.mal_id as nat) + "/"@ + spec_sanitize_filename(
                job.anime_title@,
            ) + "_ep"@ + pad3_digits(job.episode as nat) + ".wav"@,
        ));
    }
    s
}

/// The canonical transcript file of an episode:
/// `transcripts/<catalog id>/<sanitized title>_ep<NNN>.txt`.
pub fn transcript_target(paths: &DataPaths, job: &Job) -> (r: String)
    ensures
        r@ == under_root(
            paths@,
            "transcripts/"@ + dec_digits(job.mal_id as nat) + "/"@ + spec_sanitize_filename(
                job.anime_title@,
            ) + "_ep"@ + pad3_digits(job.episode as nat) + ".txt"@,
        ),
{
    let mut s = paths.transcript_dir(job.mal_id);
    s.append("/");
    let safe = sanitize_filename(job.anime_title.as_str());
    s.append(safe.as_str());
    s.append("_ep");
    push_pad3(&mut s, job.episode as u64);
    s.append(".txt");
    proof {
        assert(s@ =~= under_root(
            paths@,
            "transcripts/"@ + dec_digits(job.mal_id as nat) + "/"@ + spec_sanitize_filename(
                job.anime_title@,
            ) + "_ep"@ + pad3_digits(job.episode as nat) + ".txt"@,
        ));
    }
    s
}

/// The arguments of the audio extraction tool: 16 kHz mono 16-bit PCM WAV,
/// overwriting the output.
pub fn ffmpeg_args(video_path: &str, audio_path: &str) -> (r: Vec<String>)
    ensures
        r.deep_view() =~= seq![
            "-i"@,
            video_path@,
            "-vn"@,
            "-acodec"@,
            "pcm_s16le"@,
            "-ar"@,
            "16000"@,
            "-ac"@,
            "1"@,
            "-y"@,
            audio_path@,
        ],
{
    let mut args: Vec<String> = Vec::new();
    args.push(<String as StringExecFns>::from_str("-i"));
    args.push(<String as StringExecFns>::from_str(video_path));
    args.push(<String as StringExecFns>::from_str("-vn"));
    args.push(<String as StringExecFns>::from_str("-acodec"));
    args.push(<String as StringExecFns>::from_str("pcm_s16le"));
    args.push(<String as StringExecFns>::from_str("-ar"));
    args.push(<String as StringExecFns>::from_str("16000"));
    args.push(<String as StringExecFns>::from_str("-ac"));
    args.push(<String as StringExecFns>::from_str("1"));
    args.push(<String as StringExecFns>::from_str("-y"));
    args.push(<String as StringExecFns>::from_str(audio_path));
    args
}

/// The arguments of the transcription tool: the audio file, the model, a
/// Japanese language hint, the output directory and plain-text output.
pub fn whisper_args(audio_path: &str, model: &str, transcript_dir: &str) -> (r: Vec<String>)
    ensures
        r.deep_view() =~= seq![
            audio_path@,
            "--model"@,
            model@,
            "--language"@,
            "ja"@,
            "--output_dir"@,
            transcript_dir@,
            "--output_format"@,
            "txt"@,
            "--verbose"@,
            "False"@,
        ],
{
    let mut args: Vec<String> = Vec::new();
    args.push(<String as StringExecFns>::from_str(audio_path));
    args.push(<String as StringExecFns>::from_str("--model"));
    args.push(<String as StringExecFns>::from_str(model));
    args.push(<String as StringExecFns>::from_str("--language"));
    args.push(<String as StringExecFns>::from_str("ja"));
    args.push(<String as StringExecFns>::from_str("--output_dir"));
    args.push(<String as StringExecFns>::from_str(transcript_dir));
    args.push(<String as StringExecFns>::from_str("--output_format"));
    args.push(<String as StringExecFns>::from_str("txt"));
    args.push(<String as StringExecFns>::from_str("--verbose"));
    args.push(<String as StringExecFns>::from_str("False"));
    args
}

/// One step of the cleanup pass after a successful transcription.
#[derive(Debug, Clone, Copy, PartialEq, Eq, Structural)]
pub enum CleanupAction {
    /// Record `video_deleted` in the store.
    MarkVideoDeleted,
    /// Remove the video file from disk.
    UnlinkVideo,
    /// Record `audio_deleted` in the store.
    MarkAudioDeleted,
    /// Remove the audio file from disk.
    UnlinkAudio,
}

/// The cleanup steps the policy asks for, in execution order. Each artifact
/// is marked deleted in the store before its file is unlinked, so a crash
/// between the two steps leaves an over-marked flag but never an orphan
/// file.
pub fn cleanup_plan(cleanup: &CleanupConfig) -> (r: Vec<CleanupAction>)
    ensures
        r@ == (if cleanup.delete_video_after_transcription {
            seq![CleanupAction::MarkVideoDeleted, CleanupAction::UnlinkVideo]
        } else {
            Seq::<CleanupAction>::empty()
        }) + (if cleanup.delete_audio_after_transcription {
            seq![CleanupAction::MarkAudioDeleted, CleanupAction::UnlinkAudio]
        } else {
            Seq::<CleanupAction>::empty()
        }),
{
    let mut plan: Vec<CleanupAction> = Vec::new();
    if cleanup.delete_video_after_transcription {
        plan.push(CleanupAction::MarkVideoDeleted);
        plan.push(CleanupAction::UnlinkVideo);
    }
    if cleanup.delete_audio_after_transcription {
        plan.push(CleanupAction::MarkAudioDeleted);
        plan.push(CleanupAction::UnlinkAudio);
    }
    proof {
        assert(plan@ =~= (if cleanup.delete_video_after_transcription {
            seq![CleanupAction::MarkVideoDeleted, CleanupAction::UnlinkVideo]
        } else {
            Seq::<CleanupAction>::empty()
        }) + (if cleanup.delete_audio_after_transcription {
            seq![CleanupAction::MarkAudioDeleted, CleanupAction::UnlinkAudio]
        } else {
            Seq::<CleanupAction>::empty()
        }));
    }
    plan
}

/// Law: mark-then-unlink. In every cleanup plan, an unlink of an artifact is
/// strictly preceded by the store mark for the same artifact.
pub proof fn lemma_cleanup_marks_before_unlinks(cleanup: CleanupConfig, plan: Seq<CleanupAction>)
    requires
        plan == (if cleanup.delete_video_after_transcription {
            seq![CleanupAction::MarkVideoDeleted, CleanupAction::UnlinkVideo]
        } else {
            Seq::<CleanupAction>::empty()
        }) + (if cleanup.delete_audio_after_transcription {
            seq![CleanupAction::MarkAudioDeleted, CleanupAction::UnlinkAudio]
        } else {
            Seq::<CleanupAction>::empty()
        }),
    ensures
        forall|i: int|
            0 <= i < plan.len() && plan[i] == CleanupAction::UnlinkVideo ==> exists|j: int|
                0 <= j < i && plan[j] == CleanupAction::MarkVideoDeleted,
        forall|i: int|
            0 <= i < plan.len() && plan[i] == CleanupAction::UnlinkAudio ==> exists|j: int|
                0 <= j < i && plan[j] == CleanupAction::MarkAudioDeleted,
{
    assert forall|i: int|
        0 <= i < plan.len() && plan[i] == CleanupAction::UnlinkVideo implies exists|j: int|
        0 <= j < i && plan[j] == CleanupAction::MarkVideoDeleted by {
        assert(cleanup.delete_video_after_transcription);
        assert(plan[0] == CleanupAction::MarkVideoDeleted);
        assert(i >= 1);
    }
    assert forall|i: int|
        0 <= i < plan.len() && plan[i] == CleanupAction::UnlinkAudio implies exists|j: int|
        0 <= j < i && plan[j] == CleanupAction::MarkAudioDeleted by {
        assert(cleanup.delete_audio_after_transcription);
        if cleanup.delete_video_after_transcription {
            assert(plan[2] == CleanupAction::MarkAudioDeleted);
            assert(i == 3);
        } else {
            assert(plan[0] == CleanupAction::MarkAudioDeleted);
            assert(i == 1);
        }
    }
}

} // verus!

//! The FFmpeg command that trims a clip.
use vstd::prelude::*;
use crate::error::{validation, WayclipError};
use crate::num::{decimal, digit_char, u64_to_string};
use crate::settings::output::{join_path, join_path_exec};
use crate::text::{owned, push_str};

verus! {

/// The FFmpeg actions on clips.
pub struct Ffmpeg;

/// A count of milliseconds as seconds with three decimals, e.g. `12.345`.
pub open spec fn seconds_text(ms: u64) -> Seq<char> {
    let r = (ms % 1000) as int;
    decimal((ms / 1000) as nat) + seq!['.', digit_char(r / 100), digit_char((r / 10) % 10), digit_char(r % 10)]
}

/// The arguments of the FFmpeg command that copies `duration` seconds of `source` from `start`
/// on into `target`, overwriting it.
pub open spec fn trim_args_spec(source: Seq<char>, target: Seq<char>, start_ms: u64, end_ms: u64) -> Seq<Seq<char>> {
    seq![
        "-y"@,
        "-ss"@,
        seconds_text(start_ms),
        "-i"@,
        source,
        "-t"@,
        seconds_text((end_ms - start_ms) as u64),
        "-c"@,
        "copy"@,
        target,
    ]
}

fn digit(d: u64) -> (c: char)
    requires
        d < 10,
    ensures
        c == digit_char(d as int),
{
    if d == 0 {
        '0'
    } else if d == 1 {
        '1'
    } else if d == 2 {
        '2'
    } else if d == 3 {
        '3'
    } else if d == 4 {
        '4'
    } else if d == 5 {
        '5'
    } else if d == 6 {
        '6'
    } else if d == 7 {
        '7'
    } else if d == 8 {
        '8'
    } else {
        '9'
    }
}

impl Ffmpeg {
    /// Milliseconds as seconds with three decimals.
    pub fn seconds(ms: u64) -> (s: String)
        ensures
            s@ == seconds_text(ms),
    {
        let mut s = u64_to_string(ms / 1000);
        let r = ms % 1000;
        s.push('.');
        s.push(digit(r / 100));
        s.push(digit((r / 10) % 10));
        s.push(digit(r % 10));
        s
    }

    /// The FFmpeg arguments that write the part of `source_path` from `new_start_ms` to
    /// `new_end_ms` into `to_path`; the start must come before the end, else a `Validation`
    /// error says so.
    pub fn trim_command(source_path: &str, to_path: &str, new_start_ms: u64, new_end_ms: u64) -> (r: Result<Vec<String>, WayclipError>)
        ensures
            new_start_ms >= new_end_ms ==> (r matches Err(WayclipError::Validation(m))
                && m@ == "Start timestamp must be less than end timestamp"@),
            new_start_ms < new_end_ms ==> (r matches Ok(v) && v@.map_values(|a: String| a@)
                == trim_args_spec(source_path@, to_path@, new_start_ms, new_end_ms)),
    {
        if new_start_ms >= new_end_ms {
            return Err(validation("Start timestamp must be less than end timestamp"));
        }
        let duration_ms = new_end_ms - new_start_ms;
        let mut v: Vec<String> = Vec::new();
        v.push("-y".to_owned());
        v.push("-ss".to_owned());
        v.push(Self::seconds(new_start_ms));
        v.push("-i".to_owned());
        v.push(owned(source_path));
        v.push("-t".to_owned());
        v.push(Self::seconds(duration_ms));
        v.push("-c".to_owned());
        v.push("copy".to_owned());
        v.push(owned(to_path));
        assert(v@.map_values(|a: String| a@) =~= trim_args_spec(
            source_path@,
            to_path@,
            new_start_ms,
            new_end_ms,
        ));
        Ok(v)
    }

    /// Where a trim that overwrites its source writes first: `<parent>/<stem>_trim_tmp.<ext>`.
    pub fn overwrite_temp_path(source_parent: &str, stem: &str, ext: &str) -> (p: String)
        ensures
            p@ == join_path(source_parent@, stem@ + "_trim_tmp."@ + ext@),
    {
        let mut name = owned(stem);
        push_str(&mut name, "_trim_tmp.");
        push_str(&mut name, ext);
        join_path_exec(source_parent, name.as_str())
    }
}

} // verus!

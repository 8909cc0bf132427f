use vstd::prelude::*;

use crate::audio::recorder::RECORDING_EXTENSION;
use crate::common::{
    decimal, format_two_digits, i64_to_string, parse_i64, parsed_i64, trim_end_matches, trimmed_end,
    two_digits, SortOrder,
};
use crate::files::{join, joined};

verus! {

broadcast use vstd::seq_lib::to_multiset_insert;

/// Base name of the file that holds the recording in progress.
pub const UNSAVED_BASENAME: &'static str = "new";

/// The text that `str::to_lowercase` makes of a text.
pub uninterp spec fn lowercased(text: Seq<char>) -> Seq<char>;

/// First millisecond, counted from the epoch, of the earliest day that is a
/// point in time: the first day of the year -262143.
pub const MIN_TIMESTAMP_MILLIS: i64 = -8_334_601_228_800_000;

/// Last millisecond, counted from the epoch, of the latest day that is a
/// point in time: the last day of the year 262142.
pub const MAX_TIMESTAMP_MILLIS: i64 = 8_210_266_876_799_999;

/// Whether a number of milliseconds since the epoch is a point in time.
pub open spec fn representable_millis(millis: i64) -> bool {
    MIN_TIMESTAMP_MILLIS <= millis <= MAX_TIMESTAMP_MILLIS
}

/// Minutes and seconds of a duration, each in at least two places.
pub open spec fn clock(minutes: u64, seconds: u64) -> Seq<char> {
    two_digits(minutes as int) + ":"@ + two_digits(seconds as int)
}

/// Calls `str::to_lowercase`. The contract only names the result.
#[verifier::external_body]
fn to_lowercase(text: &str) -> (lower: String)
    ensures
        lower@ == lowercased(text@),
{
    text.to_lowercase()
}

/// Calls `chrono::DateTime::from_timestamp_millis` and tells whether it
/// returned a point in time. The contract states the range that the call
/// accepts: it refuses a day whose year lies outside of -262143 to 262142,
/// and nothing else.
#[verifier::external_body]
fn from_timestamp_millis(millis: i64) -> (representable: bool)
    ensures
        representable == representable_millis(millis),
{
    chrono::DateTime::from_timestamp_millis(millis).is_some()
}

fn format_clock(minutes: u64, seconds: u64) -> (text: String)
    ensures
        text@ == clock(minutes, seconds),
{
    let mut text = format_two_digits(minutes);
    text.append(":");
    text.append(format_two_digits(seconds).as_str());
    text
}

/// Failures of reading a recording.
#[derive(Debug)]
pub enum ReadRecordingError {
    ReadTagError(String),
    NoStreamInfo,
    /// The file is not named by a timestamp in milliseconds and the
    /// recording extension.
    InvalidFileName,
}

/// Failures of the recording storage.
#[derive(Debug)]
pub enum RecordingStorageError {
    RecordingNotExists,
    FailedToRead(ReadRecordingError),
    FileSystemError(String),
}

impl ReadRecordingError {
    pub open spec fn spec_message(self) -> Seq<char> {
        match self {
            ReadRecordingError::ReadTagError(e) => "Unable to read a FLAC tag ("@ + e@ + ")"@,
            ReadRecordingError::NoStreamInfo => "No stream info block in the file"@,
            ReadRecordingError::InvalidFileName =>
                "Invalid file name: must be '<TIMESTAMP_MILLIS>.flac'"@,
        }
    }

    /// Describes the error.
    pub fn message(&self) -> (text: String)
        ensures
            text@ == self.spec_message(),
    {
        match self {
            ReadRecordingError::ReadTagError(e) => {
                let mut text = String::from_str("Unable to read a FLAC tag (");
                text.append(e.as_str());
                text.append(")");
                text
            },
            ReadRecordingError::NoStreamInfo => String::from_str("No stream info block in the file"),
            ReadRecordingError::InvalidFileName => String::from_str(
                "Invalid file name: must be '<TIMESTAMP_MILLIS>.flac'",
            ),
        }
    }
}

impl RecordingStorageError {
    pub open spec fn spec_message(self) -> Seq<char> {
        match self {
            RecordingStorageError::RecordingNotExists => "Recording does not exist"@,
            RecordingStorageError::FailedToRead(e) => "Unable to read a recording: "@
                + e.spec_message(),
            RecordingStorageError::FileSystemError(e) => "File system error ("@ + e@ + ")"@,
        }
    }

    /// Describes the error.
    pub fn message(&self) -> (text: String)
        ensures
            text@ == self.spec_message(),
    {
        match self {
            RecordingStorageError::RecordingNotExists => String::from_str("Recording does not exist"),
            RecordingStorageError::FailedToRead(e) => {
                let mut text = String::from_str("Unable to read a recording: ");
                text.append(e.message().as_str());
                text
            },
            RecordingStorageError::FileSystemError(e) => {
                let mut text = String::from_str("File system error (");
                text.append(e.as_str());
                text.append(")");
                text
            },
        }
    }

    pub open spec fn spec_code(self) -> Seq<char> {
        match self {
            RecordingStorageError::RecordingNotExists => "RECORDING_NOT_EXISTS"@,
            RecordingStorageError::FailedToRead(_) => "FAILED_TO_READ"@,
            RecordingStorageError::FileSystemError(_) => "FILE_SYSTEM_ERROR"@,
        }
    }

    /// Short name of the error for API clients.
    pub fn code(&self) -> (code: &'static str)
        ensures
            code@ == self.spec_code(),
    {
        match self {
            RecordingStorageError::RecordingNotExists => "RECORDING_NOT_EXISTS",
            RecordingStorageError::FailedToRead(_) => "FAILED_TO_READ",
            RecordingStorageError::FileSystemError(_) => "FILE_SYSTEM_ERROR",
        }
    }
}

/// What the stream information block of a file says.
#[derive(Clone, Copy, Debug, PartialEq, Eq, Structural)]
pub struct StreamInfo {
    pub total_samples: u64,
    pub sample_rate: u32,
}

impl StreamInfo {
    /// The duration can be computed: the rate is not zero and the number of
    /// samples, taken a thousand times, fits.
    pub open spec fn measurable(self) -> bool {
        self.sample_rate > 0 && self.total_samples * 1000 <= u64::MAX
    }

    pub fn is_measurable(&self) -> (yes: bool)
        ensures
            yes == self.measurable(),
    {
        self.sample_rate > 0 && self.total_samples <= u64::MAX / 1000
    }

    pub open spec fn spec_duration_ms(self) -> int {
        self.total_samples * 1000 / self.sample_rate as int
    }

    /// Duration in milliseconds, rounded down.
    pub fn duration_ms(&self) -> (ms: u64)
        requires
            self.measurable(),
        ensures
            ms == self.spec_duration_ms(),
    {
        self.total_samples * 1000 / (self.sample_rate as u64)
    }
}

/// A saved recording.
#[derive(Debug)]
pub struct Recording {
    flac_path: String,
    /// Creation time in milliseconds since the epoch; also the identifier.
    creation_time: i64,
    /// Duration in milliseconds.
    duration: u64,
}

/// The creation time that a file name stands for, given what the name reads
/// as without its extension and whether that is a point in time.
pub open spec fn accepted_time(parsed: Option<i64>, representable: bool) -> Option<i64> {
    match parsed {
        Some(millis) => if representable {
            Some(millis)
        } else {
            None
        },
        None => None,
    }
}

/// The number that a file name in lower case stands for: what is left of
/// it without the recording extension, read as a number.
pub open spec fn spec_timestamp_in_name(lower: Seq<char>) -> Option<i64> {
    parsed_i64(trimmed_end(lower, RECORDING_EXTENSION@))
}

/// Reads the number that a file name in lower case stands for.
pub fn timestamp_in_name(lower: &str) -> (number: Option<i64>)
    ensures
        number == spec_timestamp_in_name(lower@),
{
    parse_i64(trim_end_matches(lower, RECORDING_EXTENSION))
}

/// The creation time that a file name stands for.
pub open spec fn spec_creation_time(file_name: Seq<char>) -> Option<i64> {
    let parsed = spec_timestamp_in_name(lowercased(file_name));
    match parsed {
        Some(millis) => accepted_time(parsed, representable_millis(millis)),
        None => None,
    }
}

/// Accepts a number read from a file name as creation time if it is a point
/// in time.
pub fn accept_time(parsed: Option<i64>, representable: bool) -> (time: Option<i64>)
    ensures
        time == accepted_time(parsed, representable),
{
    match parsed {
        Some(millis) => if representable {
            Some(millis)
        } else {
            None
        },
        None => None,
    }
}

/// Reads the creation time from a file name: the name in lower case, with
/// the recording extension taken off its end, read as a number of
/// milliseconds that is a point in time.
pub fn creation_time(file_name: &str) -> (time: Option<i64>)
    ensures
        time == spec_creation_time(file_name@),
{
    let lower = to_lowercase(file_name);
    let parsed = timestamp_in_name(lower.as_str());
    match parsed {
        Some(millis) => accept_time(parsed, from_timestamp_millis(millis)),
        None => None,
    }
}

impl Recording {
    pub closed spec fn time(&self) -> i64 {
        self.creation_time
    }

    pub closed spec fn duration(&self) -> u64 {
        self.duration
    }

    pub closed spec fn path(&self) -> Seq<char> {
        self.flac_path@
    }

    /// Path of the recording's file.
    pub fn flac_path(&self) -> (path: &str)
        ensures
            path@ == self.path(),
    {
        self.flac_path.as_str()
    }

    /// Builds a recording from what was read of its file: the stream
    /// information, `None` if the file has none, or why the tags could not be
    /// read; and the creation time that the file name stands for, if any.
    pub fn new(
        flac_path: String,
        stream_info: Result<Option<StreamInfo>, String>,
        creation_time: Option<i64>,
    ) -> (result: Result<Recording, ReadRecordingError>)
        requires
            stream_info matches Ok(Some(info)) ==> info.measurable(),
        ensures
            match stream_info {
                Err(e) => result matches Err(ReadRecordingError::ReadTagError(m)) && m == e,
                Ok(None) => result matches Err(ReadRecordingError::NoStreamInfo),
                Ok(Some(info)) => match creation_time {
                    None => result matches Err(ReadRecordingError::InvalidFileName),
                    Some(time) => result matches Ok(recording) && recording.path() == flac_path@
                        && recording.time() == time && recording.duration()
                        == info.spec_duration_ms(),
                },
            },
    {
        let info = match stream_info {
            Err(e) => {
                return Err(ReadRecordingError::ReadTagError(e));
            },
            Ok(None) => {
                return Err(ReadRecordingError::NoStreamInfo);
            },
            Ok(Some(info)) => info,
        };
        match creation_time {
            None => Err(ReadRecordingError::InvalidFileName),
            Some(time) => Ok(
                Recording { flac_path, creation_time: time, duration: info.duration_ms() },
            ),
        }
    }

    /// The identifier: the creation time in milliseconds.
    pub fn id(&self) -> (id: i64)
        ensures
            id == self.time(),
    {
        self.creation_time
    }

    pub fn duration_ms(&self) -> (ms: u64)
        ensures
            ms == self.duration(),
    {
        self.duration
    }

    /// The duration as minutes and seconds.
    pub fn human_duration(&self) -> (text: String)
        ensures
            text@ == clock(
                (self.duration() / 1000 / 60) as u64,
                (self.duration() / 1000 % 60) as u64,
            ),
    {
        let secs: u64 = self.duration / 1000;
        format_clock(secs / 60, secs % 60)
    }

    /// Where the API serves the recording.
    pub fn api_endpoint(&self) -> (path: String)
        ensures
            path@ == "/api/piano/recording/"@ + decimal(self.time()),
    {
        let mut path = String::from_str("/api/piano/recording/");
        path.append(i64_to_string(self.creation_time).as_str());
        path
    }
}

/// Creation times do not decrease along the sequence.
pub open spec fn ascending(recordings: Seq<Recording>) -> bool {
    forall|i: int, j: int|
        0 <= i <= j < recordings.len() ==> recordings[i].time() <= recordings[j].time()
}

/// Where a recording created at `time` goes into an ascending sequence:
/// before the first recording that is not older.
pub open spec fn insertion_point(sorted: Seq<Recording>, time: i64) -> int
    decreases sorted.len(),
{
    if sorted.len() == 0 || sorted.first().time() >= time {
        0
    } else {
        1 + insertion_point(sorted.drop_first(), time)
    }
}

/// The recordings ordered by creation time, oldest first; recordings of the
/// same time keep their order.
pub open spec fn sorted(recordings: Seq<Recording>) -> Seq<Recording>
    decreases recordings.len(),
{
    if recordings.len() == 0 {
        Seq::empty()
    } else {
        let rest = sorted(recordings.drop_first());
        rest.insert(insertion_point(rest, recordings.first().time()), recordings.first())
    }
}

/// The insertion point lies within the sequence; everything before it is
/// older, and what stands at it is not.
pub proof fn lemma_insertion_point(s: Seq<Recording>, time: i64)
    ensures
        0 <= insertion_point(s, time) <= s.len(),
        forall|k: int| 0 <= k < insertion_point(s, time) ==> s[k].time() < time,
        insertion_point(s, time) < s.len() ==> s[insertion_point(s, time)].time() >= time,
    decreases s.len(),
{
    if !(s.len() == 0 || s.first().time() >= time) {
        lemma_insertion_point(s.drop_first(), time);
        let p = insertion_point(s.drop_first(), time);
        assert forall|k: int| 0 <= k < 1 + p implies s[k].time() < time by {
            if k > 0 {
                assert(s.drop_first()[k - 1] == s[k]);
            }
        }
        if 1 + p < s.len() {
            assert(s.drop_first()[p] == s[1 + p]);
        }
    }
}

/// Sorting rearranges the recordings, loses and adds none, and leaves them
/// in ascending order of creation time.
pub proof fn lemma_sorted(s: Seq<Recording>)
    ensures
        sorted(s).len() == s.len(),
        sorted(s).to_multiset() == s.to_multiset(),
        ascending(sorted(s)),
    decreases s.len(),
{
    if s.len() == 0 {
        assert(s =~= Seq::<Recording>::empty());
        assert(sorted(s) =~= s);
    } else {
        let rest = sorted(s.drop_first());
        let x = s.first();
        let p = insertion_point(rest, x.time());
        lemma_sorted(s.drop_first());
        lemma_insertion_point(rest, x.time());
        let out = rest.insert(p, x);
        assert(out.to_multiset() == rest.to_multiset().insert(x));
        assert(s == s.drop_first().insert(0, x));
        assert(s.to_multiset() == s.drop_first().to_multiset().insert(x));
        assert forall|i: int, j: int| 0 <= i <= j < out.len() implies out[i].time()
            <= out[j].time() by {
            if i < p && j > p {
                assert(out[j] == rest[j - 1]);
                assert(rest[p].time() <= rest[j - 1].time());
            } else if i > p {
                assert(out[i] == rest[i - 1]);
                assert(out[j] == rest[j - 1]);
            } else if i == p && j > p {
                assert(out[j] == rest[j - 1]);
                assert(rest[p].time() <= rest[j - 1].time());
            }
        }
    }
}

/// The sequence in reverse.
pub open spec fn reversed(recordings: Seq<Recording>) -> Seq<Recording> {
    Seq::new(recordings.len(), |i: int| recordings[recordings.len() - 1 - i])
}

/// The recordings in the wanted order of creation time.
pub open spec fn ordered(recordings: Seq<Recording>, order: SortOrder) -> Seq<Recording> {
    match order {
        SortOrder::Ascending => sorted(recordings),
        SortOrder::Descending => reversed(sorted(recordings)),
    }
}

fn insert_sorted(out: &mut Vec<Recording>, recording: Recording)
    ensures
        final(out)@ == old(out)@.insert(
            insertion_point(old(out)@, recording.time()),
            recording,
        ),
{
    let mut p: usize = 0;
    proof {
        assert(out@.skip(0) == out@);
    }
    while p < out.len() && out[p].creation_time < recording.creation_time
        invariant
            p <= out.len(),
            insertion_point(out@, recording.time()) == p + insertion_point(
                out@.skip(p as int),
                recording.time(),
            ),
        decreases out.len() - p,
    {
        proof {
            assert(out@.skip(p as int).first() == out@[p as int]);
            assert(out@.skip(p as int).drop_first() == out@.skip(p + 1));
        }
        p += 1;
    }
    proof {
        if p < out.len() {
            assert(out@.skip(p as int).first() == out@[p as int]);
        }
    }
    out.insert(p, recording);
}

fn sort(recordings: Vec<Recording>) -> (out: Vec<Recording>)
    ensures
        out@ == sorted(recordings@),
{
    let mut rest = recordings;
    let mut out: Vec<Recording> = Vec::new();
    while rest.len() > 0
        invariant
            rest@ == recordings@.take(rest.len() as int),
            rest.len() <= recordings.len(),
            out@ == sorted(recordings@.skip(rest.len() as int)),
        decreases rest.len(),
    {
        let ghost n = rest.len() as int;
        let last = rest.pop().unwrap();
        proof {
            let tail = recordings@.skip(n - 1);
            assert(tail.first() == last);
            assert(tail.drop_first() == recordings@.skip(n));
            assert(rest@ == recordings@.take(n - 1));
        }
        insert_sorted(&mut out, last);
    }
    proof {
        assert(recordings@.skip(0) == recordings@);
    }
    out
}

fn reverse(recordings: Vec<Recording>) -> (out: Vec<Recording>)
    ensures
        out@ == reversed(recordings@),
{
    let mut rest = recordings;
    let mut out: Vec<Recording> = Vec::new();
    while rest.len() > 0
        invariant
            rest@ == recordings@.take(rest.len() as int),
            rest.len() <= recordings.len(),
            out.len() + rest.len() == recordings.len(),
            forall|i: int| 0 <= i < out.len() ==> out@[i] == recordings@[recordings.len() - 1 - i],
        decreases rest.len(),
    {
        let last = rest.pop().unwrap();
        out.push(last);
        proof {
            assert(rest@ == recordings@.take(rest.len() as int));
        }
    }
    proof {
        assert(out@ =~= reversed(recordings@));
    }
    out
}

/// One directory entry: its path and what reading it as a recording gave.
#[derive(Debug)]
pub struct Entry {
    pub path: String,
    pub recording: Result<Recording, ReadRecordingError>,
}

/// The recordings among the entries: every entry that could be read, but
/// for the file of the recording in progress; in the order of the entries.
pub open spec fn readable(entries: Seq<Entry>, unsaved_path: Seq<char>) -> Seq<Recording>
    decreases entries.len(),
{
    if entries.len() == 0 {
        Seq::empty()
    } else {
        let rest = readable(entries.drop_last(), unsaved_path);
        let last = entries.last();
        if last.path@ != unsaved_path && last.recording is Ok {
            rest.push(last.recording->Ok_0)
        } else {
            rest
        }
    }
}

/// Where recordings are kept, and how many.
#[derive(Debug)]
pub struct RecordingStorage {
    dir: String,
    max_recordings: u16,
}

impl RecordingStorage {
    pub closed spec fn dir(&self) -> Seq<char> {
        self.dir@
    }

    pub closed spec fn max_recordings(&self) -> u16 {
        self.max_recordings
    }

    pub fn new(dir: &str, max_recordings: u16) -> (storage: Self)
        ensures
            storage.dir() == dir@,
            storage.max_recordings() == max_recordings,
    {
        RecordingStorage { dir: String::from_str(dir), max_recordings }
    }

    pub open spec fn spec_path(&self, recording_basename: Seq<char>) -> Seq<char> {
        joined(self.dir(), recording_basename + RECORDING_EXTENSION@)
    }

    /// Path of the recording with the given file name without extension.
    pub fn path(&self, recording_basename: &str) -> (path: String)
        ensures
            path@ == self.spec_path(recording_basename@),
    {
        let mut file = String::from_str(recording_basename);
        file.append(RECORDING_EXTENSION);
        join(self.dir.as_str(), file.as_str())
    }

    /// Path of the file that holds the recording in progress.
    pub fn unsaved_path(&self) -> (path: String)
        ensures
            path@ == self.spec_path(UNSAVED_BASENAME@),
    {
        self.path(UNSAVED_BASENAME)
    }

    /// Path of the recording with the given identifier.
    pub fn recording_path(&self, recording_id: i64) -> (path: String)
        ensures
            path@ == self.spec_path(decimal(recording_id)),
    {
        self.path(i64_to_string(recording_id).as_str())
    }

    /// Whether a recording is in progress: the unsaved file exists.
    pub fn is_recording(unsaved_exists: Result<bool, String>) -> (result: Result<
        bool,
        RecordingStorageError,
    >)
        ensures
            match unsaved_exists {
                Ok(exists) => result matches Ok(r) && r == exists,
                Err(e) => result matches Err(RecordingStorageError::FileSystemError(m)) && m == e,
            },
    {
        match unsaved_exists {
            Ok(exists) => Ok(exists),
            Err(e) => Err(RecordingStorageError::FileSystemError(e)),
        }
    }

    /// Path of the file to record into; `None` while a recording is in
    /// progress.
    pub fn prepare_new(&self, unsaved_exists: Result<bool, String>) -> (result: Result<
        Option<String>,
        RecordingStorageError,
    >)
        ensures
            match unsaved_exists {
                Ok(true) => result matches Ok(None),
                Ok(false) => result matches Ok(Some(path)) && path@ == self.spec_path(
                    UNSAVED_BASENAME@,
                ),
                Err(e) => result matches Err(RecordingStorageError::FileSystemError(m)) && m == e,
            },
    {
        match unsaved_exists {
            Ok(true) => Ok(None),
            Ok(false) => Ok(Some(self.unsaved_path())),
            Err(e) => Err(RecordingStorageError::FileSystemError(e)),
        }
    }

    /// Path under which the recording in progress is saved at the time
    /// `now_millis`; `None` if no recording is in progress.
    pub fn preserve_new(&self, unsaved_exists: Result<bool, String>, now_millis: i64) -> (result:
        Result<Option<String>, RecordingStorageError>)
        ensures
            match unsaved_exists {
                Ok(false) => result matches Ok(None),
                Ok(true) => result matches Ok(Some(path)) && path@ == self.spec_path(
                    decimal(now_millis),
                ),
                Err(e) => result matches Err(RecordingStorageError::FileSystemError(m)) && m == e,
            },
    {
        match unsaved_exists {
            Ok(false) => Ok(None),
            Ok(true) => Ok(Some(self.recording_path(now_millis))),
            Err(e) => Err(RecordingStorageError::FileSystemError(e)),
        }
    }

    /// The recording that was looked up by its identifier: it must exist and
    /// be readable.
    pub fn get(found: Result<bool, String>, recording: Result<Recording, ReadRecordingError>) -> (result:
        Result<Recording, RecordingStorageError>)
        ensures
            match found {
                Err(e) => result matches Err(RecordingStorageError::FileSystemError(m)) && m == e,
                Ok(false) => result matches Err(RecordingStorageError::RecordingNotExists),
                Ok(true) => match recording {
                    Ok(r) => result matches Ok(got) && got == r,
                    Err(e) => result matches Err(RecordingStorageError::FailedToRead(f)) && f == e,
                },
            },
    {
        match found {
            Err(e) => Err(RecordingStorageError::FileSystemError(e)),
            Ok(false) => Err(RecordingStorageError::RecordingNotExists),
            Ok(true) => match recording {
                Ok(r) => Ok(r),
                Err(e) => Err(RecordingStorageError::FailedToRead(e)),
            },
        }
    }

    /// The saved recordings among the entries of the directory, ordered by
    /// creation time. Entries that cannot be read are left out, and so is
    /// the recording in progress.
    pub fn list(&self, entries: Vec<Entry>, order: SortOrder) -> (recordings: Vec<Recording>)
        ensures
            recordings@ == ordered(readable(entries@, self.spec_path(UNSAVED_BASENAME@)), order),
    {
        let unsaved = self.unsaved_path();
        let mut rest = entries;
        let mut picked: Vec<Recording> = Vec::new();
        // Entries are taken from the back, so `picked` holds them reversed.
        while rest.len() > 0
            invariant
                rest@ == entries@.take(rest.len() as int),
                rest.len() <= entries.len(),
                readable(entries@, unsaved@) == readable(rest@, unsaved@) + reversed(picked@),
            decreases rest.len(),
        {
            let ghost before = rest@;
            let ghost picked_before = picked@;
            let entry = rest.pop().unwrap();
            proof {
                assert(before.drop_last() == rest@);
                assert(before.last() == entry);
                assert(rest@ == entries@.take(rest.len() as int));
            }
            if entry.path != unsaved {
                match entry.recording {
                    Ok(recording) => {
                        picked.push(recording);
                        proof {
                            assert(reversed(picked@) =~= seq![recording] + reversed(
                                picked_before,
                            ));
                            assert(readable(before, unsaved@) == readable(rest@, unsaved@).push(
                                recording,
                            ));
                            assert(readable(rest@, unsaved@).push(recording) + reversed(
                                picked_before,
                            ) =~= readable(rest@, unsaved@) + (seq![recording] + reversed(
                                picked_before,
                            )));
                        }
                    },
                    Err(_) => {},
                }
            }
        }
        proof {
            assert(readable(rest@, unsaved@) =~= Seq::<Recording>::empty());
            assert(readable(entries@, unsaved@) =~= reversed(picked@));
        }
        let in_order = reverse(picked);
        let ascending = sort(in_order);
        match order {
            SortOrder::Ascending => ascending,
            SortOrder::Descending => reverse(ascending),
        }
    }

    /// The recordings that are removed to keep the limit: of the recordings
    /// listed newest first, all after the newest `max_recordings`.
    pub fn remove_old_if_limit_reached(&self, newest_first: Vec<Recording>) -> (removed: Vec<
        Recording,
    >)
        ensures
            removed@ == if newest_first.len() > self.max_recordings() {
                newest_first@.skip(self.max_recordings() as int)
            } else {
                Seq::<Recording>::empty()
            },
    {
        let keep: usize = self.max_recordings as usize;
        let mut rest = newest_first;
        let mut tail: Vec<Recording> = Vec::new();
        proof {
            assert(reversed(tail@) =~= newest_first@.skip(newest_first.len() as int));
        }
        while rest.len() > keep
            invariant
                rest@ == newest_first@.take(rest.len() as int),
                rest.len() <= newest_first.len(),
                newest_first.len() > keep ==> rest.len() >= keep,
                newest_first.len() <= keep ==> rest.len() == newest_first.len(),
                reversed(tail@) == newest_first@.skip(rest.len() as int),
            decreases rest.len(),
        {
            let ghost tail_before = tail@;
            let ghost n = rest.len() as int;
            let last = rest.pop().unwrap();
            tail.push(last);
            proof {
                assert(rest@ == newest_first@.take(n - 1));
                assert(reversed(tail@) =~= seq![last] + reversed(tail_before));
                assert(newest_first@.skip(n - 1) =~= seq![last] + newest_first@.skip(n));
            }
        }
        let removed = reverse(tail);
        proof {
            assert(reversed(reversed(tail@)) =~= tail@);
            if newest_first.len() <= keep {
                assert(newest_first@.skip(newest_first.len() as int) =~= Seq::<
                    Recording,
                >::empty());
            }
        }
        removed
    }
}

/// Tells whether removed recordings are announced: only if at least one was
/// removed.
pub fn old_recordings_removed(removed: usize) -> (announce: bool)
    ensures
        announce == (removed != 0),
{
    removed != 0
}

} // verus!

//! File names and formats: which files belong to a resource, what time a
//! file name carries, and what a read or a save in a declared format comes to.

use std::sync::Arc;
use vstd::prelude::*;
use vstd::std_specs::iter::IteratorSpec;

use crate::time::{Timestamp, NANOS_PER_SEC};
use crate::traits::{ResourceError, ResourceFileType};

verus! {

/// The index just past the last `-` of `name`, or 0 where it has none.
pub open spec fn segment_start(name: Seq<char>) -> int
    decreases name.len(),
{
    if name.len() == 0 {
        0
    } else if name.last() == '-' {
        name.len() as int
    } else {
        segment_start(name.drop_last())
    }
}

/// The index of the first `.` of `name` at or after `from`, or the length of
/// `name` where there is none.
pub open spec fn segment_end(name: Seq<char>, from: int) -> int
    decreases name.len() - from,
{
    if from < 0 || from >= name.len() {
        name.len() as int
    } else if name[from] == '.' {
        from
    } else {
        segment_end(name, from + 1)
    }
}

/// The part of a file name that carries its timestamp: what stands after the
/// last `-` and before the first `.` that follows it.
pub open spec fn timestamp_segment(name: Seq<char>) -> Seq<char> {
    name.subrange(segment_start(name), segment_end(name, segment_start(name)))
}

/// Whether `c` is one of the ten decimal digits.
pub open spec fn is_digit(c: char) -> bool {
    '0' <= c && c <= '9'
}

/// The number that a decimal digit stands for.
pub open spec fn digit_value(c: char) -> nat {
    if is_digit(c) {
        (c as u32 - '0' as u32) as nat
    } else {
        0
    }
}

/// The number that a run of decimal digits stands for.
pub open spec fn decimal_value(digits: Seq<char>) -> nat
    decreases digits.len(),
{
    if digits.len() == 0 {
        0
    } else {
        decimal_value(digits.drop_last()) * 10 + digit_value(digits.last())
    }
}

/// The digits of an unsigned numeral: the text without one leading `+`.
pub open spec fn numeral_digits(text: Seq<char>) -> Seq<char> {
    if text.len() > 0 && text[0] == '+' {
        text.subrange(1, text.len() as int)
    } else {
        text
    }
}

/// Whether every character of `text` is a decimal digit.
pub open spec fn all_digits(text: Seq<char>) -> bool {
    forall|i: int| 0 <= i < text.len() ==> is_digit(#[trigger] text[i])
}

/// The number of seconds that `text` spells: an optional `+`, then at least
/// one decimal digit and nothing else, with a value that fits in 64 bits.
pub open spec fn parse_seconds(text: Seq<char>) -> Option<u64> {
    let digits = numeral_digits(text);
    if digits.len() > 0 && all_digits(digits) && decimal_value(digits) <= u64::MAX {
        Some(decimal_value(digits) as u64)
    } else {
        None
    }
}

/// The seconds since the epoch that a file name carries. A name without a
/// `-` carries none.
pub open spec fn file_name_seconds(name: Seq<char>) -> Option<u64> {
    if name.contains('-') {
        parse_seconds(timestamp_segment(name))
    } else {
        None
    }
}

/// The message of the error for a file name without a `-`.
pub open spec fn missing_separator_message() -> Seq<char> {
    "Invalid filename format: missing timestamp separator"@
}

/// The message of the error for a file name whose timestamp segment is no
/// number of seconds.
pub open spec fn bad_timestamp_message() -> Seq<char> {
    "Failed to parse timestamp"@
}

/// The segment start is a position of `name`; it is 0 exactly where `name`
/// has no `-`, it stands just behind a `-` otherwise, and no `-` follows it.
pub proof fn lemma_segment_start(name: Seq<char>)
    ensures
        0 <= segment_start(name) <= name.len(),
        segment_start(name) > 0 <==> name.contains('-'),
        segment_start(name) > 0 ==> name[segment_start(name) - 1] == '-',
        forall|i: int| segment_start(name) <= i < name.len() ==> name[i] != '-',
    decreases name.len(),
{
    if name.len() == 0 {
    } else if name.last() == '-' {
        assert(name[name.len() - 1] == '-');
    } else {
        let front = name.drop_last();
        lemma_segment_start(front);
        if front.contains('-') {
            let i = choose|i: int| 0 <= i < front.len() && front[i] == '-';
            assert(name[i] == '-');
        }
        if name.contains('-') {
            let i = choose|i: int| 0 <= i < name.len() && name[i] == '-';
            assert(front[i] == '-');
        }
        assert forall|i: int| segment_start(name) <= i < name.len() implies name[i] != '-' by {
            if i < front.len() {
                assert(front[i] != '-');
            }
        }
        if segment_start(name) > 0 {
            assert(front[segment_start(front) - 1] == '-');
        }
    }
}

/// The segment end lies between `from` and the end of `name`; it is a `.`
/// unless it is the end of `name`, and no `.` stands between `from` and it.
pub proof fn lemma_segment_end(name: Seq<char>, from: int)
    requires
        0 <= from <= name.len(),
    ensures
        from <= segment_end(name, from) <= name.len(),
        segment_end(name, from) < name.len() ==> name[segment_end(name, from)] == '.',
        forall|i: int| from <= i < segment_end(name, from) ==> name[i] != '.',
    decreases name.len() - from,
{
    if from < name.len() && name[from] != '.' {
        lemma_segment_end(name, from + 1);
    }
}

/// The value of a run of digits is at least the value of each of its
/// beginnings.
proof fn lemma_decimal_value_grows(digits: Seq<char>, k: int)
    requires
        0 <= k <= digits.len(),
    ensures
        decimal_value(digits.take(k)) <= decimal_value(digits),
    decreases digits.len() - k,
{
    if k == digits.len() {
        assert(digits.take(k) =~= digits);
    } else {
        lemma_decimal_value_grows(digits.drop_last(), k);
        assert(digits.drop_last().take(k) =~= digits.take(k));
    }
}

/// The characters of `text`, one by one.
fn chars_of(text: &str) -> (chars: Vec<char>)
    ensures
        chars@ == text@,
{
    broadcast use vstd::string::group_string_axioms;

    let mut chars: Vec<char> = Vec::new();
    for c in it: text.chars()
        invariant
            chars@ == it.seq().take(it.index() as int),
            it.seq() == text@,
    {
        chars.push(c);
    }
    chars
}

/// Where the timestamp segment of `name` begins and ends, and whether `name`
/// has a `-` at all.
fn scan_segment(name: &Vec<char>) -> (found: (bool, usize, usize))
    ensures
        found.0 == name@.contains('-'),
        found.1 == segment_start(name@),
        found.2 == segment_end(name@, segment_start(name@)),
        found.1 <= found.2 <= name.len(),
{
    let n = name.len();
    let mut start: usize = 0;
    let mut i: usize = 0;
    while i < n
        invariant
            n == name.len(),
            start <= i <= n,
            start == segment_start(name@.take(i as int)),
        decreases n - i,
    {
        proof {
            let longer = name@.take(i + 1);
            assert(longer.drop_last() =~= name@.take(i as int));
            assert(longer.last() == name@[i as int]);
        }
        if name[i] == '-' {
            start = i + 1;
        }
        i += 1;
    }
    proof {
        assert(name@.take(n as int) =~= name@);
        lemma_segment_start(name@);
    }
    let mut end: usize = start;
    while end < n && name[end] != '.'
        invariant
            n == name.len(),
            start <= end <= n,
            segment_end(name@, start as int) == segment_end(name@, end as int),
        decreases n - end,
    {
        end += 1;
    }
    (start > 0, start, end)
}

/// The number that the characters of `text` from `from` up to `to` spell.
fn parse_numeral(text: &Vec<char>, from: usize, to: usize) -> (seconds: Option<u64>)
    requires
        from <= to <= text.len(),
    ensures
        seconds == parse_seconds(text@.subrange(from as int, to as int)),
{
    let ghost numeral = text@.subrange(from as int, to as int);
    let mut k: usize = from;
    if k < to && text[k] == '+' {
        assert(numeral[0] == '+');
        k += 1;
    }
    let first = k;
    let ghost digits = text@.subrange(first as int, to as int);
    assert(digits =~= numeral_digits(numeral));
    if first == to {
        return None;
    }
    let mut value: u64 = 0;
    while k < to
        invariant
            from <= first <= k <= to <= text.len(),
            digits == text@.subrange(first as int, to as int),
            digits == numeral_digits(text@.subrange(from as int, to as int)),
            all_digits(digits.take(k - first)),
            value == decimal_value(digits.take(k - first)),
        decreases to - k,
    {
        let c = text[k];
        proof {
            let longer = digits.take(k - first + 1);
            assert(longer.drop_last() =~= digits.take(k - first));
            assert(longer.last() == c);
            assert(digits[k - first] == c);
            lemma_decimal_value_grows(digits, k - first + 1);
        }
        if !('0' <= c && c <= '9') {
            assert(!is_digit(digits[k - first]));
            return None;
        }
        let digit: u64 = (c as u32 - '0' as u32) as u64;
        let next = match value.checked_mul(10) {
            Some(tenfold) => tenfold.checked_add(digit),
            None => None,
        };
        match next {
            Some(v) => {
                value = v;
            },
            None => {
                return None;
            },
        }
        k += 1;
    }
    assert(digits.take(k - first) =~= digits);
    Some(value)
}

/// The time that a file name carries: the seconds since the epoch spelled
/// between its last `-` and the first `.` behind it.
///
/// A name without a `-`, and one whose segment is no number of seconds that
/// fits in 64 bits, is refused with an `Io` error.
pub fn parse_timestamp(file_name: &str) -> (parsed: Result<Timestamp, ResourceError>)
    ensures
        match file_name_seconds(file_name@) {
            Some(secs) => parsed matches Ok(t) && t@ == secs * NANOS_PER_SEC,
            None => parsed matches Err(error) && is_timestamp_error(file_name@, error),
        },
{
    let chars = chars_of(file_name);
    let (has_separator, start, end) = scan_segment(&chars);
    if !has_separator {
        return Err(
            ResourceError::Io("Invalid filename format: missing timestamp separator".to_owned()),
        );
    }
    match parse_numeral(&chars, start, end) {
        Some(secs) => Ok(Timestamp::from_unix_secs(secs)),
        None => Err(ResourceError::Io("Failed to parse timestamp".to_owned())),
    }
}

/// Whether `name` starts with `prefix`.
pub fn starts_with(name: &str, prefix: &str) -> (starts: bool)
    ensures
        starts == prefix@.is_prefix_of(name@),
{
    let name_chars = chars_of(name);
    let prefix_chars = chars_of(prefix);
    let n = prefix_chars.len();
    if n > name_chars.len() {
        return false;
    }
    let mut i: usize = 0;
    while i < n
        invariant
            n == prefix_chars.len(),
            i <= n <= name_chars.len(),
            name_chars@ == name@,
            prefix_chars@ == prefix@,
            prefix_chars@.take(i as int) =~= name_chars@.subrange(0, i as int),
        decreases n - i,
    {
        if prefix_chars[i] != name_chars[i] {
            assert(prefix_chars@[i as int] != name_chars@.subrange(0, n as int)[i as int]);
            return false;
        }
        assert(prefix_chars@.take(i + 1) =~= prefix_chars@.take(i as int).push(
            prefix_chars@[i as int],
        ));
        i += 1;
    }
    assert(prefix_chars@.take(n as int) =~= prefix_chars@);
    true
}

/// The test that a name starts with `prefix`.
pub open spec fn has_prefix(prefix: Seq<char>) -> spec_fn(String) -> bool {
    |name: String| prefix.is_prefix_of(name@)
}

/// The names among `names` that start with `prefix`, in the order in which
/// they stand there.
pub open spec fn names_with_prefix(names: Seq<String>, prefix: Seq<char>) -> Seq<String> {
    names.filter(has_prefix(prefix))
}

/// The files of a directory that belong to the resource with the file-name
/// prefix `file_name_prefix`: of the file names `names`, in directory order,
/// those that start with the prefix, in the same order.
pub fn get_files_starts_with(file_name_prefix: &str, names: &Vec<String>) -> (files: Vec<String>)
    ensures
        files@ == names_with_prefix(names@, file_name_prefix@),
{
    let mut files: Vec<String> = Vec::new();
    let n = names.len();
    let mut i: usize = 0;
    while i < n
        invariant
            n == names.len(),
            i <= n,
            files@ == names_with_prefix(names@.take(i as int), file_name_prefix@),
        decreases n - i,
    {
        proof {
            assert(names@.take(i + 1) =~= names@.take(i as int).push(names@[i as int]));
            names@.take(i as int).lemma_filter_push(names@[i as int], has_prefix(file_name_prefix@));
        }
        if starts_with(names[i].as_str(), file_name_prefix) {
            files.push(names[i].clone());
        }
        i += 1;
    }
    assert(names@.take(n as int) =~= names@);
    files
}

/// What came of reading one source, a file or a response body, and decoding
/// its text.
#[derive(Debug)]
pub enum SourceRead<T> {
    /// The source could not be read; the payload says why.
    Unreadable(String),
    /// The source was read, but its text is no value in the declared format.
    Undecodable,
    /// The value that the text of the source spells.
    Decoded(T),
}

/// What came of encoding a value and writing the text to a file.
#[derive(Debug)]
pub enum FileWrite {
    /// The value could not be encoded in the declared format.
    Unencodable,
    /// The text could not be written; the payload says why.
    Unwritable(String),
    /// The file holds the encoded value.
    Written,
}

/// The result of a read in the format `file_type`. A format that cannot be
/// read gives `UnsupportedFileType` with its name, whatever became of the
/// source. Else an unreadable source gives `Io` with the reader's message, an
/// undecodable one `Deserialization` with the format's shown name, and a
/// decoded one its value.
pub open spec fn parse_result<T>(
    file_type: ResourceFileType,
    read: SourceRead<T>,
) -> Result<T, ResourceError> {
    if !file_type.supported() {
        Err(ResourceError::UnsupportedFileType(file_type.name()))
    } else {
        match read {
            SourceRead::Unreadable(message) => Err(ResourceError::Io(message)),
            SourceRead::Undecodable => Err(ResourceError::Deserialization(file_type.label())),
            SourceRead::Decoded(value) => Ok(value),
        }
    }
}

/// The value that a read in the format `file_type` yields, if it yields one.
pub open spec fn read_value<T>(file_type: ResourceFileType, read: SourceRead<T>) -> Option<T> {
    match parse_result(file_type, read) {
        Ok(value) => Some(value),
        Err(_) => None,
    }
}

/// The result of a save in the format `file_type`. A format that cannot be
/// written gives `UnsupportedFileType` with its name, whatever became of the
/// file. Else a value that could not be encoded gives `Serialization` with
/// the format's shown name, and a file that could not be written `Io` with
/// the writer's message.
pub open spec fn save_result(
    file_type: ResourceFileType,
    written: FileWrite,
) -> Result<(), ResourceError> {
    if !file_type.supported() {
        Err(ResourceError::UnsupportedFileType(file_type.name()))
    } else {
        match written {
            FileWrite::Unencodable => Err(ResourceError::Serialization(file_type.label())),
            FileWrite::Unwritable(message) => Err(ResourceError::Io(message)),
            FileWrite::Written => Ok(()),
        }
    }
}

/// Whether `error` is the error for a file name that carries no timestamp:
/// an `Io` error whose message tells a name without a `-` from one with a
/// segment that is no number of seconds.
pub open spec fn is_timestamp_error(name: Seq<char>, error: ResourceError) -> bool {
    error matches ResourceError::Io(message) && message@ == (if name.contains('-') {
        bad_timestamp_message()
    } else {
        missing_separator_message()
    })
}

/// The result of reading a source of the format `file_type`, given what came
/// of the read: the decoded value for JSON and YAML, and an error otherwise.
pub fn parse_file<T>(
    file_type: &ResourceFileType,
    read: SourceRead<T>,
) -> (parsed: Result<T, ResourceError>)
    ensures
        parsed == parse_result(*file_type, read),
{
    if !file_type.is_supported() {
        return Err(ResourceError::UnsupportedFileType(file_type.as_str()));
    }
    match read {
        SourceRead::Unreadable(message) => Err(ResourceError::Io(message)),
        SourceRead::Undecodable => Err(ResourceError::Deserialization(file_type.display_name())),
        SourceRead::Decoded(value) => Ok(value),
    }
}

/// The result of reading a file whose name carries a timestamp: the decoded
/// value and the time that the name carries. The name is looked at first: a
/// name without a timestamp is refused whatever the file holds.
pub fn parse_file_with_timestamp_by_path<T>(
    file_name: &str,
    file_type: &ResourceFileType,
    read: SourceRead<T>,
) -> (parsed: Result<(T, Timestamp), ResourceError>)
    ensures
        match file_name_seconds(file_name@) {
            Some(secs) => match parse_result(*file_type, read) {
                Ok(value) => parsed matches Ok(found) && found.0 == value && found.1@ == secs
                    * NANOS_PER_SEC,
                Err(error) => parsed == Err::<(T, Timestamp), ResourceError>(error),
            },
            None => parsed matches Err(error) && is_timestamp_error(file_name@, error),
        },
{
    let timestamp = match parse_timestamp(file_name) {
        Ok(t) => t,
        Err(error) => {
            return Err(error);
        },
    };
    match parse_file(file_type, read) {
        Ok(value) => Ok((value, timestamp)),
        Err(error) => Err(error),
    }
}

/// The result of saving a value in the format `file_type` over the file of
/// the resource, given what came of the write.
pub fn save_to_disk_override(
    file_type: &ResourceFileType,
    written: FileWrite,
) -> (saved: Result<(), ResourceError>)
    ensures
        saved == save_result(*file_type, written),
{
    if !file_type.is_supported() {
        return Err(ResourceError::UnsupportedFileType(file_type.as_str()));
    }
    match written {
        FileWrite::Unencodable => Err(ResourceError::Serialization(file_type.display_name())),
        FileWrite::Unwritable(message) => Err(ResourceError::Io(message)),
        FileWrite::Written => Ok(()),
    }
}

/// One file of the storage directory: its name, and what came of reading it.
#[derive(Debug)]
pub struct DiskCandidate<T> {
    /// The name of the file, without its directory.
    pub file_name: String,
    /// What came of reading the file and decoding its text.
    pub read: SourceRead<T>,
}

/// What one file of the directory offers to the resource with the file-name
/// prefix `prefix` and the format `file_type`: the decoded value and the time
/// that the file's name carries, in nanoseconds since the epoch. A file
/// offers nothing unless its name starts with the prefix and carries a
/// timestamp, and its text was decoded.
pub open spec fn disk_offer<T>(
    candidate: DiskCandidate<T>,
    prefix: Seq<char>,
    file_type: ResourceFileType,
) -> Option<(Arc<T>, int)> {
    if prefix.is_prefix_of(candidate.file_name@) {
        match (file_name_seconds(candidate.file_name@), read_value(file_type, candidate.read)) {
            (Some(secs), Some(value)) => Some((Arc::new(value), secs * NANOS_PER_SEC)),
            _ => None,
        }
    } else {
        None
    }
}

/// The offer of the first file, at or after the index `from`, that offers
/// anything.
pub open spec fn first_offer<T>(
    candidates: Seq<DiskCandidate<T>>,
    prefix: Seq<char>,
    file_type: ResourceFileType,
    from: int,
) -> Option<(Arc<T>, int)>
    decreases candidates.len() - from,
{
    if from < 0 || from >= candidates.len() {
        None
    } else {
        match disk_offer(candidates[from], prefix, file_type) {
            Some(offer) => Some(offer),
            None => first_offer(candidates, prefix, file_type, from + 1),
        }
    }
}

/// The value that one file of the directory yields for the resource with the
/// file-name prefix `prefix` and the format `file_type`, whatever its name
/// says of time. A file yields nothing unless its name starts with the
/// prefix and its text was decoded.
pub open spec fn file_value<T>(
    candidate: DiskCandidate<T>,
    prefix: Seq<char>,
    file_type: ResourceFileType,
) -> Option<Arc<T>> {
    if prefix.is_prefix_of(candidate.file_name@) {
        match read_value(file_type, candidate.read) {
            Some(value) => Some(Arc::new(value)),
            None => None,
        }
    } else {
        None
    }
}

/// The value of the first file, at or after the index `from`, that yields
/// one.
pub open spec fn first_file_value<T>(
    candidates: Seq<DiskCandidate<T>>,
    prefix: Seq<char>,
    file_type: ResourceFileType,
    from: int,
) -> Option<Arc<T>>
    decreases candidates.len() - from,
{
    if from < 0 || from >= candidates.len() {
        None
    } else {
        match file_value(candidates[from], prefix, file_type) {
            Some(value) => Some(value),
            None => first_file_value(candidates, prefix, file_type, from + 1),
        }
    }
}

/// The first offer is the offer of a file before which no file offers
/// anything; there is none exactly where no file offers anything.
pub proof fn lemma_first_offer<T>(
    candidates: Seq<DiskCandidate<T>>,
    prefix: Seq<char>,
    file_type: ResourceFileType,
    from: int,
)
    requires
        0 <= from <= candidates.len(),
    ensures
        match first_offer(candidates, prefix, file_type, from) {
            Some(offer) => exists|i: int|
                from <= i < candidates.len() && #[trigger] disk_offer(
                    candidates[i],
                    prefix,
                    file_type,
                ) == Some(offer) && forall|j: int|
                    from <= j < i ==> #[trigger] disk_offer(candidates[j], prefix, file_type)
                        is None,
            None => forall|j: int|
                from <= j < candidates.len() ==> #[trigger] disk_offer(
                    candidates[j],
                    prefix,
                    file_type,
                ) is None,
        },
    decreases candidates.len() - from,
{
    if from < candidates.len() {
        match disk_offer(candidates[from], prefix, file_type) {
            Some(offer) => {
                assert(disk_offer(candidates[from], prefix, file_type) == Some(offer));
            },
            None => {
                lemma_first_offer(candidates, prefix, file_type, from + 1);
                match first_offer(candidates, prefix, file_type, from + 1) {
                    Some(offer) => {
                        let i = choose|i: int|
                            from + 1 <= i < candidates.len() && #[trigger] disk_offer(
                                candidates[i],
                                prefix,
                                file_type,
                            ) == Some(offer) && forall|j: int|
                                from + 1 <= j < i ==> #[trigger] disk_offer(
                                    candidates[j],
                                    prefix,
                                    file_type,
                                ) is None;
                        assert(disk_offer(candidates[i], prefix, file_type) == Some(offer));
                    },
                    None => {},
                }
            },
        }
    }
}

/// The first file value is the value of a file before which no file yields
/// one; there is none exactly where no file yields one.
pub proof fn lemma_first_file_value<T>(
    candidates: Seq<DiskCandidate<T>>,
    prefix: Seq<char>,
    file_type: ResourceFileType,
    from: int,
)
    requires
        0 <= from <= candidates.len(),
    ensures
        match first_file_value(candidates, prefix, file_type, from) {
            Some(value) => exists|i: int|
                from <= i < candidates.len() && #[trigger] file_value(
                    candidates[i],
                    prefix,
                    file_type,
                ) == Some(value) && forall|j: int|
                    from <= j < i ==> #[trigger] file_value(candidates[j], prefix, file_type)
                        is None,
            None => forall|j: int|
                from <= j < candidates.len() ==> #[trigger] file_value(
                    candidates[j],
                    prefix,
                    file_type,
                ) is None,
        },
    decreases candidates.len() - from,
{
    if from < candidates.len() {
        match file_value(candidates[from], prefix, file_type) {
            Some(value) => {
                assert(file_value(candidates[from], prefix, file_type) == Some(value));
            },
            None => {
                lemma_first_file_value(candidates, prefix, file_type, from + 1);
                match first_file_value(candidates, prefix, file_type, from + 1) {
                    Some(value) => {
                        let i = choose|i: int|
                            from + 1 <= i < candidates.len() && #[trigger] file_value(
                                candidates[i],
                                prefix,
                                file_type,
                            ) == Some(value) && forall|j: int|
                                from + 1 <= j < i ==> #[trigger] file_value(
                                    candidates[j],
                                    prefix,
                                    file_type,
                                ) is None;
                        assert(file_value(candidates[i], prefix, file_type) == Some(value));
                    },
                    None => {},
                }
            },
        }
    }
}

} // verus!

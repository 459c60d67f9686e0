//! The words of the command line that stand for spans, amounts and mounts.

use vstd::prelude::*;
use vstd::string::StringSliceAdditionalSpecFns;
use crate::config::{
    ClearUsage,
    Limits,
    Mount,
    MountOptions,
    MountOptionsView,
    MountView,
    SpaceUsage,
};
use crate::text::{copy_bytes, is_digit, parse_u64, parse_u64_spec};
use crate::time::Duration;

verus! {

/// How the outcome of a run is written out.
#[derive(Debug, PartialEq, Eq, Structural, Copy, Clone)]
pub enum OutputType {
    Human,
    Oneline,
    Json,
}

/// Why a word of the command line could not be read.
#[derive(Debug, PartialEq, Eq, Structural, Copy, Clone)]
pub enum ArgError {
    /// The word is all digits: the unit is missing.
    MissingSuffix,
    /// The word does not begin with a number that fits in 64 bits.
    InvalidNumber,
    /// The unit is not known.
    UnknownSuffix,
    /// The amount does not fit in 64 bits.
    TooLarge,
    /// An option of a mount is not known.
    UnknownMountOption,
    /// The mount is not of one, two or three parts.
    MalformedMount,
    /// The kind of output is not known.
    UnknownOutput,
    /// A limit that is written to a control group was set although the
    /// groups are not cleared.
    LimitWithoutClearUsage,
}

/// How many digits `text` begins with.
pub open spec fn leading_digits(text: Seq<u8>) -> nat
    decreases text.len(),
{
    if text.len() > 0 && is_digit(text[0]) {
        1 + leading_digits(text.skip(1))
    } else {
        0
    }
}


/// A number followed by its unit: the number that the leading digits of
/// `text` spell, and what follows them.
pub open spec fn number_and_suffix(text: Seq<u8>) -> Result<(u64, Seq<u8>), ArgError> {
    let count = leading_digits(text) as int;
    if count >= text.len() {
        Err(ArgError::MissingSuffix)
    } else {
        match parse_u64_spec(text.take(count)) {
            Some(number) => Ok((number, text.skip(count))),
            None => Err(ArgError::InvalidNumber),
        }
    }
}

/// The span that `text` stands for, in nanoseconds: a number followed by
/// `ns`, `ms` or `s`.
pub open spec fn parse_duration_spec(text: Seq<u8>) -> Result<nat, ArgError> {
    match number_and_suffix(text) {
        Err(error) => Err(error),
        Ok((number, suffix)) => if suffix == "ns".spec_bytes() {
            Ok(number as nat)
        } else if suffix == "ms".spec_bytes() {
            Ok(number as nat * 1_000_000)
        } else if suffix == "s".spec_bytes() {
            Ok(number as nat * 1_000_000_000)
        } else {
            Err(ArgError::UnknownSuffix)
        },
    }
}

/// How many bytes one of the unit `suffix` holds: `b`, the decimal `kb`, `mb`
/// and `gb`, or the binary `kib`, `mib` and `gib`.
pub open spec fn unit_bytes(suffix: Seq<u8>) -> Option<nat> {
    if suffix == "b".spec_bytes() {
        Some(1)
    } else if suffix == "kb".spec_bytes() {
        Some(1_000)
    } else if suffix == "mb".spec_bytes() {
        Some(1_000_000)
    } else if suffix == "gb".spec_bytes() {
        Some(1_000_000_000)
    } else if suffix == "kib".spec_bytes() {
        Some(1_024)
    } else if suffix == "mib".spec_bytes() {
        Some(1_048_576)
    } else if suffix == "gib".spec_bytes() {
        Some(1_073_741_824)
    } else {
        None
    }
}

/// The amount that `text` stands for, in bytes: a number followed by a unit.
pub open spec fn parse_space_usage_spec(text: Seq<u8>) -> Result<nat, ArgError> {
    match number_and_suffix(text) {
        Err(error) => Err(error),
        Ok((number, suffix)) => match unit_bytes(suffix) {
            None => Err(ArgError::UnknownSuffix),
            Some(unit) => if number * unit <= u64::MAX {
                Ok(number as nat * unit)
            } else {
                Err(ArgError::TooLarge)
            },
        },
    }
}

/// Where `separator` first stands in `text`, or the length of `text` where
/// it does not.
pub open spec fn first_index(text: Seq<u8>, separator: u8) -> nat
    decreases text.len(),
{
    if text.len() == 0 || text[0] == separator {
        0
    } else {
        1 + first_index(text.skip(1), separator)
    }
}

/// The parts of `text` between its separators. There is one part more than
/// there are separators, and a part may be empty.
pub open spec fn split_spec(text: Seq<u8>, separator: u8) -> Seq<Seq<u8>>
    decreases text.len(),
{
    let index = first_index(text, separator) as int;
    if index >= text.len() {
        seq![text]
    } else {
        seq![text.take(index)] + split_spec(text.skip(index + 1), separator)
    }
}


/// `options` after one more word of a mount was read: `rw` lets the mount be
/// written to, `dev` lets its device files count, `exec` lets programs be
/// run from it. Any other word is an error.
pub open spec fn apply_option(options: MountOptionsView, word: Seq<u8>) -> Result<
    MountOptionsView,
    ArgError,
> {
    if word == "rw".spec_bytes() {
        Ok(MountOptionsView { read_only: false, ..options })
    } else if word == "dev".spec_bytes() {
        Ok(MountOptionsView { dev: true, ..options })
    } else if word == "exec".spec_bytes() {
        Ok(MountOptionsView { executable: true, ..options })
    } else {
        Err(ArgError::UnknownMountOption)
    }
}

/// `options` after each of `words` was read in turn, or the first error.
pub open spec fn apply_options(options: MountOptionsView, words: Seq<Seq<u8>>) -> Result<
    MountOptionsView,
    ArgError,
>
    decreases words.len(),
{
    if words.len() == 0 {
        Ok(options)
    } else {
        match apply_options(options, words.drop_last()) {
            Err(error) => Err(error),
            Ok(sofar) => apply_option(sofar, words.last()),
        }
    }
}

/// The options that `text` stands for: words between commas, read on top of
/// the options that a mount has when nothing is said.
pub open spec fn parse_mount_options_spec(text: Seq<u8>) -> Result<MountOptionsView, ArgError> {
    apply_options(
        MountOptionsView { read_only: true, executable: false, dev: false },
        split_spec(text, 44),
    )
}

/// The mount that `text` stands for. Its parts stand between colons: the
/// source; then the destination, which is the source where it is left out;
/// then the options.
pub open spec fn parse_mount_spec(text: Seq<u8>) -> Result<MountView, ArgError> {
    let parts = split_spec(text, 58);
    let usual = MountOptionsView { read_only: true, executable: false, dev: false };
    if parts.len() == 1 {
        Ok(MountView { source: parts[0], destination: parts[0], options: usual })
    } else if parts.len() == 2 {
        Ok(MountView { source: parts[0], destination: parts[1], options: usual })
    } else if parts.len() == 3 {
        match parse_mount_options_spec(parts[2]) {
            Ok(options) => Ok(MountView { source: parts[0], destination: parts[1], options }),
            Err(error) => Err(error),
        }
    } else {
        Err(ArgError::MalformedMount)
    }
}

/// Whether `a` and `b` hold the same bytes.
pub fn same_bytes(a: &[u8], b: &[u8]) -> (r: bool)
    ensures
        r == (a@ == b@),
{
    if a.len() != b.len() {
        return false;
    }
    let mut i: usize = 0;
    while i < a.len()
        invariant
            i <= a.len(),
            a.len() == b.len(),
            a@.take(i as int) == b@.take(i as int),
        decreases a.len() - i,
    {
        if a[i] != b[i] {
            return false;
        }
        assert(a@.take(i as int + 1) =~= a@.take(i as int).push(a@[i as int]));
        assert(b@.take(i as int + 1) =~= b@.take(i as int).push(b@[i as int]));
        i += 1;
    }
    assert(a@.take(a.len() as int) =~= a@);
    assert(b@.take(b.len() as int) =~= b@);
    true
}

fn is_word(text: &[u8], word: &str) -> (r: bool)
    ensures
        r == (text@ == word.spec_bytes()),
{
    same_bytes(text, word.as_bytes())
}

fn split_number(text: &[u8]) -> (r: Result<(u64, Vec<u8>), ArgError>)
    ensures
        match r {
            Ok((number, suffix)) => number_and_suffix(text@) == Ok::<(u64, Seq<u8>), ArgError>(
                (number, suffix@),
            ),
            Err(error) => number_and_suffix(text@) == Err::<(u64, Seq<u8>), ArgError>(error),
        },
{
    let mut count: usize = 0;
    assert(text@.skip(0) =~= text@);
    while count < text.len() && text[count] >= 48 && text[count] <= 57
        invariant
            count <= text.len(),
            leading_digits(text@) == count + leading_digits(text@.skip(count as int)),
        decreases text.len() - count,
    {
        assert(text@.skip(count as int).skip(1) =~= text@.skip(count as int + 1));
        count += 1;
    }
    if count == text.len() {
        return Err(ArgError::MissingSuffix);
    }
    let mut digits: Vec<u8> = Vec::new();
    let mut i: usize = 0;
    while i < count
        invariant
            i <= count <= text.len(),
            digits@ == text@.take(i as int),
        decreases count - i,
    {
        digits.push(text[i]);
        assert(text@.take(i as int + 1) =~= text@.take(i as int).push(text@[i as int]));
        i += 1;
    }
    let mut suffix: Vec<u8> = Vec::new();
    let mut j: usize = count;
    while j < text.len()
        invariant
            count <= j <= text.len(),
            suffix@ == text@.subrange(count as int, j as int),
        decreases text.len() - j,
    {
        suffix.push(text[j]);
        assert(text@.subrange(count as int, j as int + 1) =~= text@.subrange(
            count as int,
            j as int,
        ).push(text@[j as int]));
        j += 1;
    }
    assert(suffix@ =~= text@.skip(count as int));
    match parse_u64(digits.as_slice()) {
        Some(number) => Ok((number, suffix)),
        None => Err(ArgError::InvalidNumber),
    }
}

/// The span that `string` stands for.
pub fn parse_duration(string: &str) -> (r: Result<Duration, ArgError>)
    ensures
        match r {
            Ok(span) => parse_duration_spec(string.spec_bytes()) == Ok::<nat, ArgError>(span@),
            Err(error) => parse_duration_spec(string.spec_bytes()) == Err::<nat, ArgError>(error),
        },
{
    let (number, suffix) = match split_number(string.as_bytes()) {
        Ok(parts) => parts,
        Err(error) => {
            return Err(error);
        },
    };
    if is_word(suffix.as_slice(), "ns") {
        Ok(Duration::from_nanos(number))
    } else if is_word(suffix.as_slice(), "ms") {
        Ok(Duration::from_millis(number))
    } else if is_word(suffix.as_slice(), "s") {
        Ok(Duration::from_secs(number))
    } else {
        Err(ArgError::UnknownSuffix)
    }
}

fn unit_of(suffix: &[u8]) -> (unit: Option<u64>)
    ensures
        match unit {
            Some(bytes) => unit_bytes(suffix@) == Some(bytes as nat),
            None => unit_bytes(suffix@) is None,
        },
{
    if is_word(suffix, "b") {
        Some(1)
    } else if is_word(suffix, "kb") {
        Some(1_000)
    } else if is_word(suffix, "mb") {
        Some(1_000_000)
    } else if is_word(suffix, "gb") {
        Some(1_000_000_000)
    } else if is_word(suffix, "kib") {
        Some(1_024)
    } else if is_word(suffix, "mib") {
        Some(1_048_576)
    } else if is_word(suffix, "gib") {
        Some(1_073_741_824)
    } else {
        None
    }
}

/// The amount that `string` stands for.
pub fn parse_space_usage(string: &str) -> (r: Result<SpaceUsage, ArgError>)
    ensures
        match r {
            Ok(amount) => parse_space_usage_spec(string.spec_bytes()) == Ok::<nat, ArgError>(
                amount@,
            ),
            Err(error) => parse_space_usage_spec(string.spec_bytes()) == Err::<nat, ArgError>(
                error,
            ),
        },
{
    let (number, suffix) = match split_number(string.as_bytes()) {
        Ok(parts) => parts,
        Err(error) => {
            return Err(error);
        },
    };
    let unit = match unit_of(suffix.as_slice()) {
        Some(unit) => unit,
        None => {
            return Err(ArgError::UnknownSuffix);
        },
    };
    match number.checked_mul(unit) {
        Some(bytes) => Ok(SpaceUsage::from_bytes(bytes)),
        None => Err(ArgError::TooLarge),
    }
}

/// The parts of `text` between its separators.
pub fn split(text: &[u8], separator: u8) -> (parts: Vec<Vec<u8>>)
    ensures
        crate::text::byte_views(parts@) == split_spec(text@, separator),
{
    let mut parts: Vec<Vec<u8>> = Vec::new();
    let mut part: Vec<u8> = Vec::new();
    let mut start: usize = 0;
    let mut i: usize = 0;
    assert(text@.skip(0) =~= text@);
    assert(text@.subrange(0, 0) =~= Seq::<u8>::empty());
    while i < text.len()
        invariant
            start <= i <= text.len(),
            part@ == text@.subrange(start as int, i as int),
            split_spec(text@, separator) == crate::text::byte_views(parts@) + split_spec(
                text@.skip(start as int),
                separator,
            ),
            first_index(text@.skip(start as int), separator) == (i - start) + first_index(
                text@.skip(i as int),
                separator,
            ),
        decreases text.len() - i,
    {
        let ghost rest = text@.skip(start as int);
        if text[i] == separator {
            proof {
                assert(first_index(text@.skip(i as int), separator) == 0);
                assert(rest.take(i - start) =~= part@);
                assert(rest.skip(i - start + 1) =~= text@.skip(i as int + 1));
                crate::text::lemma_byte_views_push(parts@, part);
                assert(crate::text::byte_views(parts@) + (seq![part@] + split_spec(
                    text@.skip(i as int + 1),
                    separator,
                )) =~= crate::text::byte_views(parts@).push(part@) + split_spec(
                    text@.skip(i as int + 1),
                    separator,
                ));
            }
            parts.push(part);
            part = Vec::new();
            start = i + 1;
            assert(text@.subrange(start as int, start as int) =~= Seq::<u8>::empty());
        } else {
            proof {
                assert(text@.skip(i as int).skip(1) =~= text@.skip(i as int + 1));
                assert(text@.subrange(start as int, i as int + 1) =~= part@.push(text@[i as int]));
            }
            part.push(text[i]);
        }
        i += 1;
    }
    proof {
        let rest = text@.skip(start as int);
        assert(first_index(text@.skip(text.len() as int), separator) == 0);
        assert(rest =~= part@);
        crate::text::lemma_byte_views_push(parts@, part);
        assert(crate::text::byte_views(parts@) + seq![part@] =~= crate::text::byte_views(
            parts@,
        ).push(part@));
    }
    parts.push(part);
    parts
}

fn read_option(options: MountOptions, word: &[u8]) -> (r: Result<MountOptions, ArgError>)
    ensures
        match r {
            Ok(read) => apply_option(options@, word@) == Ok::<MountOptionsView, ArgError>(read@),
            Err(error) => apply_option(options@, word@) == Err::<MountOptionsView, ArgError>(error),
        },
{
    let mut options = options;
    if is_word(word, "rw") {
        options.set_read_only(false);
        Ok(options)
    } else if is_word(word, "dev") {
        options.set_dev(true);
        Ok(options)
    } else if is_word(word, "exec") {
        options.set_executable(true);
        Ok(options)
    } else {
        Err(ArgError::UnknownMountOption)
    }
}

fn read_options(text: &[u8]) -> (r: Result<MountOptions, ArgError>)
    ensures
        match r {
            Ok(options) => parse_mount_options_spec(text@) == Ok::<MountOptionsView, ArgError>(
                options@,
            ),
            Err(error) => parse_mount_options_spec(text@) == Err::<MountOptionsView, ArgError>(
                error,
            ),
        },
{
    let words = split(text, 44);
    let ghost all = crate::text::byte_views(words@);
    let mut options = MountOptions::default();
    let mut i: usize = 0;
    while i < words.len()
        invariant
            i <= words.len(),
            all == crate::text::byte_views(words@),
            all == split_spec(text@, 44),
            apply_options(
                MountOptionsView { read_only: true, executable: false, dev: false },
                all.take(i as int),
            ) == Ok::<MountOptionsView, ArgError>(options@),
        decreases words.len() - i,
    {
        proof {
            assert(all.take(i as int + 1).drop_last() =~= all.take(i as int));
            assert(all.take(i as int + 1).last() == words@[i as int]@);
        }
        match read_option(options, words[i].as_slice()) {
            Ok(read) => {
                options = read;
            },
            Err(error) => {
                proof {
                    assert(apply_options(
                        MountOptionsView { read_only: true, executable: false, dev: false },
                        all.take(i as int + 1),
                    ) == Err::<MountOptionsView, ArgError>(error));
                    lemma_apply_options_error(
                        MountOptionsView { read_only: true, executable: false, dev: false },
                        all,
                        i as int + 1,
                    );
                }
                return Err(error);
            },
        }
        i += 1;
    }
    assert(all.take(words.len() as int) =~= all);
    Ok(options)
}

/// An error in reading the first words of a list is the error of the list.
pub proof fn lemma_apply_options_error(options: MountOptionsView, words: Seq<Seq<u8>>, count: int)
    requires
        0 <= count <= words.len(),
        apply_options(options, words.take(count)) is Err,
    ensures
        apply_options(options, words) == apply_options(options, words.take(count)),
    decreases words.len() - count,
{
    if count < words.len() {
        assert(words.take(count + 1).drop_last() =~= words.take(count));
        lemma_apply_options_error(options, words, count + 1);
    } else {
        assert(words.take(count) =~= words);
    }
}

/// The options that `string` stands for.
pub fn parse_mount_options(string: &str) -> (r: Result<MountOptions, ArgError>)
    ensures
        match r {
            Ok(options) => parse_mount_options_spec(string.spec_bytes()) == Ok::<
                MountOptionsView,
                ArgError,
            >(options@),
            Err(error) => parse_mount_options_spec(string.spec_bytes()) == Err::<
                MountOptionsView,
                ArgError,
            >(error),
        },
{
    read_options(string.as_bytes())
}

/// The mount that `string` stands for.
pub fn parse_mount(string: &str) -> (r: Result<Mount, ArgError>)
    ensures
        match r {
            Ok(mount) => parse_mount_spec(string.spec_bytes()) == Ok::<MountView, ArgError>(mount@),
            Err(error) => parse_mount_spec(string.spec_bytes()) == Err::<MountView, ArgError>(
                error,
            ),
        },
{
    let parts = split(string.as_bytes(), 58);
    if parts.len() == 1 {
        Ok(
            Mount::new(
                copy_bytes(parts[0].as_slice()),
                copy_bytes(parts[0].as_slice()),
                MountOptions::default(),
            ),
        )
    } else if parts.len() == 2 {
        Ok(
            Mount::new(
                copy_bytes(parts[0].as_slice()),
                copy_bytes(parts[1].as_slice()),
                MountOptions::default(),
            ),
        )
    } else if parts.len() == 3 {
        match read_options(parts[2].as_slice()) {
            Ok(options) => Ok(
                Mount::new(
                    copy_bytes(parts[0].as_slice()),
                    copy_bytes(parts[1].as_slice()),
                    options,
                ),
            ),
            Err(error) => Err(error),
        }
    } else {
        Err(ArgError::MalformedMount)
    }
}

/// The kind of output that `string` names: `human`, `oneline` or `json`.
pub fn parse_output_type(string: &str) -> (r: Result<OutputType, ArgError>)
    ensures
        r == (if string.spec_bytes() == "human".spec_bytes() {
            Ok::<OutputType, ArgError>(OutputType::Human)
        } else if string.spec_bytes() == "oneline".spec_bytes() {
            Ok(OutputType::Oneline)
        } else if string.spec_bytes() == "json".spec_bytes() {
            Ok(OutputType::Json)
        } else {
            Err(ArgError::UnknownOutput)
        }),
{
    let text = string.as_bytes();
    if is_word(text, "human") {
        Ok(OutputType::Human)
    } else if is_word(text, "oneline") {
        Ok(OutputType::Oneline)
    } else if is_word(text, "json") {
        Ok(OutputType::Json)
    } else {
        Err(ArgError::UnknownOutput)
    }
}

/// Whether `limits` can stand with `clear_usage`. Where the control groups
/// are entered without being cleared nothing is written to them, so a limit
/// on user time, memory or tasks could not be honoured and is refused.
pub fn check_clear_usage(clear_usage: ClearUsage, limits: &Limits) -> (r: Result<(), ArgError>)
    ensures
        r == (if clear_usage == ClearUsage::No && (limits@.user_time is Some || limits@.memory
            is Some || limits@.pids is Some) {
            Err::<(), ArgError>(ArgError::LimitWithoutClearUsage)
        } else {
            Ok(())
        }),
{
    if clear_usage == ClearUsage::No && limits.restricts_group() {
        Err(ArgError::LimitWithoutClearUsage)
    } else {
        Ok(())
    }
}

/// An error, if there is one; else the value, if there is one.
pub fn flip_option_result<T, E>(arg: Option<Result<T, E>>) -> (r: Result<Option<T>, E>)
    ensures
        r == match arg {
            None => Ok::<Option<T>, E>(None),
            Some(Ok(x)) => Ok(Some(x)),
            Some(Err(err)) => Err(err),
        },
{
    match arg {
        None => Ok(None),
        Some(Ok(x)) => Ok(Some(x)),
        Some(Err(err)) => Err(err),
    }
}

} // verus!

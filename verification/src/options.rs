//! The command line: two paths, then flags.

use vstd::prelude::*;

verus! {

/// The channels of the output.
#[derive(Debug, Clone, Copy, PartialEq, Eq, Structural)]
pub enum ChannelLayout {
    /// Front left and right, back left and right.
    Four,
    /// The four, and a front centre.
    Five,
    /// The five, and a low-frequency channel.
    FiveOne,
}

/// The family of matrix that the source was encoded with.
#[derive(Debug, Clone, Copy, PartialEq, Eq, Structural)]
pub enum MatrixFormat {
    Default,
    QS,
    HorseShoe,
    Dolby,
    RM,
    SQ,
}

/// Why the command line was refused. An index is that of the argument at
/// fault, counted from the program's name.
#[derive(Debug, Clone, Copy, PartialEq, Eq, Structural)]
pub enum OptionsError {
    /// Fewer than a source and a target were given.
    Usage,
    UnknownChannels { arg_index: usize },
    ChannelsUnspecified,
    UnknownMatrix { arg_index: usize },
    MatrixUnspecified,
    LowFrequencyUnspecified,
    /// The lowest steered frequency is a number below one.
    LowFrequencyBelowOne { arg_index: usize },
    /// The lowest steered frequency is no number.
    LowFrequencyNotANumber { arg_index: usize },
    UnknownThreads { arg_index: usize },
    ThreadsUnspecified,
    UnknownFlag { arg_index: usize },
}

/// How a text reads as a frequency in hertz. Reading it takes arithmetic
/// on fractions, which is the caller's; the command line is read with the
/// outcome for each of its arguments.
#[derive(Debug, Clone, Copy, PartialEq, Eq, Structural)]
pub enum LowFrequencyReading {
    /// A number that is not below one.
    Usable,
    BelowOne,
    NotANumber,
}

/// What the command line asks for.
pub struct Options {
    pub source_wav_path: String,
    pub target_wav_path: String,
    pub num_threads: Option<usize>,
    pub channel_layout: ChannelLayout,
    pub matrix_format: MatrixFormat,
    /// The lowest steered frequency as it was written, if it was given: a
    /// text that reads as a usable frequency.
    pub low_frequency: Option<String>,
    pub keep_awake: bool,
}

/// An `Options` with its texts as sequences of characters.
pub ghost struct OptionsView {
    pub source_wav_path: Seq<char>,
    pub target_wav_path: Seq<char>,
    pub num_threads: Option<usize>,
    pub channel_layout: ChannelLayout,
    pub matrix_format: MatrixFormat,
    pub low_frequency: Option<Seq<char>>,
    pub keep_awake: bool,
}

impl View for Options {
    type V = OptionsView;

    open spec fn view(&self) -> OptionsView {
        OptionsView {
            source_wav_path: self.source_wav_path@,
            target_wav_path: self.target_wav_path@,
            num_threads: self.num_threads,
            channel_layout: self.channel_layout,
            matrix_format: self.matrix_format,
            low_frequency: match self.low_frequency {
                Some(text) => Some(text@),
                None => None,
            },
            keep_awake: self.keep_awake,
        }
    }
}

impl ChannelLayout {
    /// Whether the layout has a front centre.
    pub fn front_center(&self) -> (present: bool)
        ensures
            present == !(self is Four),
    {
        match self {
            ChannelLayout::Four => false,
            _ => true,
        }
    }

    /// Whether the layout has a low-frequency channel.
    pub fn low_frequency(&self) -> (present: bool)
        ensures
            present == (self is FiveOne),
    {
        match self {
            ChannelLayout::FiveOne => true,
            _ => false,
        }
    }

    /// Whether the mean of the two source channels is transformed too: it
    /// feeds the front centre and the low-frequency channel.
    pub fn transform_mono(&self) -> (needed: bool)
        ensures
            needed == !(self is Four),
    {
        self.front_center()
    }
}

/// The layout that `text` names.
pub open spec fn channel_layout_named(text: Seq<char>) -> Option<ChannelLayout> {
    if text == "4"@ {
        Some(ChannelLayout::Four)
    } else if text == "5"@ {
        Some(ChannelLayout::Five)
    } else if text == "5.1"@ {
        Some(ChannelLayout::FiveOne)
    } else {
        None
    }
}

/// The matrix that `text` names.
pub open spec fn matrix_format_named(text: Seq<char>) -> Option<MatrixFormat> {
    if text == "default"@ {
        Some(MatrixFormat::Default)
    } else if text == "qs"@ {
        Some(MatrixFormat::QS)
    } else if text == "horseshoe"@ {
        Some(MatrixFormat::HorseShoe)
    } else if text == "dolby"@ {
        Some(MatrixFormat::Dolby)
    } else if text == "rm"@ {
        Some(MatrixFormat::RM)
    } else if text == "sq"@ {
        Some(MatrixFormat::SQ)
    } else {
        None
    }
}

/// Whether `text` reads `word`.
fn reads(text: &String, word: &str) -> (same: bool)
    ensures
        same == (text@ == word@),
{
    *text == word.to_owned()
}

/// The layout that `text` names, if it names one.
pub fn parse_channel_layout(text: &String) -> (layout: Option<ChannelLayout>)
    ensures
        layout == channel_layout_named(text@),
{
    if reads(text, "4") {
        Some(ChannelLayout::Four)
    } else if reads(text, "5") {
        Some(ChannelLayout::Five)
    } else if reads(text, "5.1") {
        Some(ChannelLayout::FiveOne)
    } else {
        None
    }
}

/// The matrix that `text` names, if it names one.
pub fn parse_matrix_format(text: &String) -> (format: Option<MatrixFormat>)
    ensures
        format == matrix_format_named(text@),
{
    if reads(text, "default") {
        Some(MatrixFormat::Default)
    } else if reads(text, "qs") {
        Some(MatrixFormat::QS)
    } else if reads(text, "horseshoe") {
        Some(MatrixFormat::HorseShoe)
    } else if reads(text, "dolby") {
        Some(MatrixFormat::Dolby)
    } else if reads(text, "rm") {
        Some(MatrixFormat::RM)
    } else if reads(text, "sq") {
        Some(MatrixFormat::SQ)
    } else {
        None
    }
}

/// Whether `c` is one of the ten decimal digits.
pub open spec fn is_decimal_digit(c: char) -> bool {
    48 <= c as int <= 57
}

/// The number that a run of decimal digits spells.
pub open spec fn decimal_value(digits: Seq<char>) -> int
    decreases digits.len(),
{
    if digits.len() == 0 {
        0
    } else {
        10 * decimal_value(digits.drop_last()) + (digits.last() as int - 48)
    }
}

/// The number that `text` spells as an unsigned integer of the machine's
/// word size: an optional plus sign, then one decimal digit or more and
/// nothing else, for a number that the word holds.
pub open spec fn parsed_usize(text: Seq<char>) -> Option<usize> {
    let digits = if text.len() > 0 && text[0] == '+' {
        text.subrange(1, text.len() as int)
    } else {
        text
    };
    if digits.len() > 0 && (forall|i: int| 0 <= i < digits.len() ==> is_decimal_digit(#[trigger] digits[i]))
        && decimal_value(digits) <= usize::MAX {
        Some(decimal_value(digits) as usize)
    } else {
        None
    }
}

/// `str::parse::<usize>`: the number that the standard library reads from
/// `text`, or `None` where it reads none. It reads a number from an
/// optional plus sign followed by decimal digits alone, and none from an
/// empty text, a text with any other character, or digits that spell a
/// number beyond the word size.
#[verifier::external_body]
fn parse_usize(text: &str) -> (number: Option<usize>)
    ensures
        number == parsed_usize(text@),
{
    match text.parse::<usize>() {
        Ok(number) => Some(number),
        Err(_) => None,
    }
}

/// The texts of `args`.
pub open spec fn texts(args: Seq<String>) -> Seq<Seq<char>> {
    Seq::new(args.len(), |i: int| args[i]@)
}

/// What the command line asks for where it names no flag.
pub open spec fn default_options(source_wav_path: Seq<char>, target_wav_path: Seq<char>)
    -> OptionsView {
    OptionsView {
        source_wav_path,
        target_wav_path,
        num_threads: None,
        channel_layout: ChannelLayout::FiveOne,
        matrix_format: MatrixFormat::Default,
        low_frequency: None,
        keep_awake: false,
    }
}

/// `so_far` in the light of a thread count read from argument `arg_index`.
pub open spec fn threads_applied(so_far: OptionsView, number: Option<usize>, arg_index: int)
    -> Result<OptionsView, OptionsError> {
    match number {
        Some(number) => Ok(OptionsView { num_threads: Some(number), ..so_far }),
        None => Err(OptionsError::UnknownThreads { arg_index: arg_index as usize }),
    }
}

/// How argument `arg_index` reads as a frequency: as `readings` has it, and
/// as no number where `readings` has nothing for it.
pub open spec fn reading_at(readings: Seq<LowFrequencyReading>, arg_index: int)
    -> LowFrequencyReading {
    if 0 <= arg_index < readings.len() {
        readings[arg_index]
    } else {
        LowFrequencyReading::NotANumber
    }
}

/// The reading of the flags of `args` from argument `at` on, on top of what
/// `so_far` holds. Flags are read left to right; a later one overrides an
/// earlier one; the first fault ends the reading.
pub open spec fn flags_read(
    args: Seq<Seq<char>>,
    readings: Seq<LowFrequencyReading>,
    at: int,
    so_far: OptionsView,
) -> Result<OptionsView, OptionsError>
    decreases args.len() - at,
{
    if at < 0 || at >= args.len() {
        Ok(so_far)
    } else if args[at] == "-keep-awake"@ {
        flags_read(args, readings, at + 1, OptionsView { keep_awake: true, ..so_far })
    } else if args[at] == "-channels"@ {
        if at + 1 >= args.len() {
            Err(OptionsError::ChannelsUnspecified)
        } else {
            match channel_layout_named(args[at + 1]) {
                Some(channel_layout) => flags_read(
                    args,
                    readings,
                    at + 2,
                    OptionsView { channel_layout, ..so_far },
                ),
                None => Err(OptionsError::UnknownChannels { arg_index: (at + 1) as usize }),
            }
        }
    } else if args[at] == "-matrix"@ {
        if at + 1 >= args.len() {
            Err(OptionsError::MatrixUnspecified)
        } else {
            match matrix_format_named(args[at + 1]) {
                Some(matrix_format) => flags_read(
                    args,
                    readings,
                    at + 2,
                    OptionsView { matrix_format, ..so_far },
                ),
                None => Err(OptionsError::UnknownMatrix { arg_index: (at + 1) as usize }),
            }
        }
    } else if args[at] == "-low"@ {
        if at + 1 >= args.len() {
            Err(OptionsError::LowFrequencyUnspecified)
        } else {
            match reading_at(readings, at + 1) {
                LowFrequencyReading::Usable => flags_read(
                    args,
                    readings,
                    at + 2,
                    OptionsView { low_frequency: Some(args[at + 1]), ..so_far },
                ),
                LowFrequencyReading::BelowOne => Err(
                    OptionsError::LowFrequencyBelowOne { arg_index: (at + 1) as usize },
                ),
                LowFrequencyReading::NotANumber => Err(
                    OptionsError::LowFrequencyNotANumber { arg_index: (at + 1) as usize },
                ),
            }
        }
    } else if args[at] == "-threads"@ {
        if at + 1 >= args.len() {
            Err(OptionsError::ThreadsUnspecified)
        } else {
            match threads_applied(so_far, parsed_usize(args[at + 1]), at + 1) {
                Ok(with_threads) => flags_read(args, readings, at + 2, with_threads),
                Err(error) => Err(error),
            }
        }
    } else {
        Err(OptionsError::UnknownFlag { arg_index: at as usize })
    }
}

/// The reading of a whole command line: the program's name, the source,
/// the target, then flags. `readings` says of each argument how it reads as
/// a frequency.
pub open spec fn options_read(args: Seq<Seq<char>>, readings: Seq<LowFrequencyReading>) -> Result<
    OptionsView,
    OptionsError,
> {
    if args.len() < 3 {
        Err(OptionsError::Usage)
    } else {
        flags_read(args, readings, 3, default_options(args[1], args[2]))
    }
}

impl Options {
    /// Takes on a thread count as it was read from argument `arg_index`:
    /// a number is kept, and no number is a fault of that argument.
    pub fn with_threads(self, number: Option<usize>, arg_index: usize) -> (r: Result<
        Options,
        OptionsError,
    >)
        ensures
            match threads_applied(self@, number, arg_index as int) {
                Ok(with_threads) => r matches Ok(options) && options@ == with_threads,
                Err(error) => r == Err::<Options, OptionsError>(error),
            },
    {
        match number {
            Some(number) => {
                let mut options = self;
                options.num_threads = Some(number);
                Ok(options)
            },
            None => Err(OptionsError::UnknownThreads { arg_index }),
        }
    }

    /// Reads a command line: the program's name, the source, the target,
    /// then flags. `low_frequency_readings` says of each argument how it
    /// reads as a frequency; it is looked at for the value of `-low` only.
    pub fn parse(args: &Vec<String>, low_frequency_readings: &Vec<LowFrequencyReading>) -> (r:
        Result<Options, OptionsError>)
        ensures
            match options_read(texts(args@), low_frequency_readings@) {
                Ok(read) => r matches Ok(options) && options@ == read,
                Err(error) => r == Err::<Options, OptionsError>(error),
            },
    {
        if args.len() < 3 {
            return Err(OptionsError::Usage);
        }
        let ghost all = texts(args@);
        let mut options = Options {
            source_wav_path: args[1].clone(),
            target_wav_path: args[2].clone(),
            num_threads: None,
            channel_layout: ChannelLayout::FiveOne,
            matrix_format: MatrixFormat::Default,
            low_frequency: None,
            keep_awake: false,
        };
        let mut at: usize = 3;
        while at < args.len()
            invariant
                3 <= at <= args.len() + 1,
                all == texts(args@),
                flags_read(all, low_frequency_readings@, at as int, options@) == options_read(
                    all,
                    low_frequency_readings@,
                ),
            decreases args.len() + 1 - at,
        {
            let flag = &args[at];
            assert(all[at as int] == flag@);
            if reads(flag, "-keep-awake") {
                options.keep_awake = true;
                at = at + 1;
            } else if reads(flag, "-channels") {
                if at + 1 >= args.len() {
                    return Err(OptionsError::ChannelsUnspecified);
                }
                assert(all[at + 1] == args[at + 1]@);
                match parse_channel_layout(&args[at + 1]) {
                    Some(channel_layout) => {
                        options.channel_layout = channel_layout;
                    },
                    None => {
                        return Err(OptionsError::UnknownChannels { arg_index: at + 1 });
                    },
                }
                at = at + 2;
            } else if reads(flag, "-matrix") {
                if at + 1 >= args.len() {
                    return Err(OptionsError::MatrixUnspecified);
                }
                assert(all[at + 1] == args[at + 1]@);
                match parse_matrix_format(&args[at + 1]) {
                    Some(matrix_format) => {
                        options.matrix_format = matrix_format;
                    },
                    None => {
                        return Err(OptionsError::UnknownMatrix { arg_index: at + 1 });
                    },
                }
                at = at + 2;
            } else if reads(flag, "-low") {
                if at + 1 >= args.len() {
                    return Err(OptionsError::LowFrequencyUnspecified);
                }
                assert(all[at + 1] == args[at + 1]@);
                let reading = if at + 1 < low_frequency_readings.len() {
                    low_frequency_readings[at + 1]
                } else {
                    LowFrequencyReading::NotANumber
                };
                match reading {
                    LowFrequencyReading::Usable => {
                        options.low_frequency = Some(args[at + 1].clone());
                    },
                    LowFrequencyReading::BelowOne => {
                        return Err(OptionsError::LowFrequencyBelowOne { arg_index: at + 1 });
                    },
                    LowFrequencyReading::NotANumber => {
                        return Err(OptionsError::LowFrequencyNotANumber { arg_index: at + 1 });
                    },
                }
                at = at + 2;
            } else if reads(flag, "-threads") {
                if at + 1 >= args.len() {
                    return Err(OptionsError::ThreadsUnspecified);
                }
                assert(all[at + 1] == args[at + 1]@);
                let number = parse_usize(args[at + 1].as_str());
                match options.with_threads(number, at + 1) {
                    Ok(with_threads) => {
                        options = with_threads;
                    },
                    Err(error) => {
                        return Err(error);
                    },
                }
                at = at + 2;
            } else {
                return Err(OptionsError::UnknownFlag { arg_index: at });
            }
        }
        Ok(options)
    }
}

} // verus!

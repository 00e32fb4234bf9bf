//! Start-up configuration of the shipper.

use vstd::prelude::*;
use vstd::string::StringSliceAdditionalSpecFns;

verus! {

/// What a configuration is in contracts.
pub struct ConfigModel {
    pub aws_region: Seq<char>,
    pub cursor_file: Seq<char>,
    pub batch_size: u32,
    pub sleep_millis: u64,
    pub log_group_name: Seq<char>,
    pub log_stream_name: Seq<char>,
}

/// Values resolved once at start-up and never changed afterwards.
#[derive(Clone, Debug, PartialEq, Eq)]
pub struct Config {
    /// Name of the region whose ingestion endpoint is used.
    pub aws_region: String,
    /// Path of the file that holds the persisted journal cursor.
    pub cursor_file: String,
    /// Most records read and uploaded in one cycle.
    pub batch_size: u32,
    /// Pause after an empty read, in milliseconds.
    pub sleep_millis: u64,
    pub log_group_name: String,
    pub log_stream_name: String,
}

impl View for Config {
    type V = ConfigModel;

    open spec fn view(&self) -> ConfigModel {
        ConfigModel {
            aws_region: self.aws_region@,
            cursor_file: self.cursor_file@,
            batch_size: self.batch_size,
            sleep_millis: self.sleep_millis,
            log_group_name: self.log_group_name@,
            log_stream_name: self.log_stream_name@,
        }
    }
}

/// Why no configuration could be made.
#[derive(Clone, Copy, Debug, PartialEq, Eq, Structural)]
pub enum ConfigError {
    /// The batch size is not a decimal number that fits 32 bits.
    InvalidBatchSize,
    /// No log group name is set.
    MissingLogGroupName,
    /// No log stream name is set.
    MissingLogStreamName,
}

/// The batch size where none is set.
pub const DEFAULT_BATCH_SIZE: u32 = 500;

/// The pause after an empty read, in milliseconds.
pub const SLEEP_MILLIS: u64 = 500;

/// The cursor file where none is set.
pub open spec fn default_cursor_file() -> Seq<char> {
    "/var/lib/cloudjournal/current-cursor"@
}

/// Whether `byte` is an ASCII decimal digit.
pub open spec fn is_digit(byte: u8) -> bool {
    0x30 <= byte <= 0x39
}

/// Whether every byte of `digits` is a decimal digit.
pub open spec fn all_digits(digits: Seq<u8>) -> bool {
    forall|i: int| 0 <= i < digits.len() ==> is_digit(#[trigger] digits[i])
}

/// The number that a run of decimal digits writes, most significant first.
pub open spec fn digits_value(digits: Seq<u8>) -> nat
    decreases digits.len(),
{
    if digits.len() == 0 {
        0
    } else {
        (digits_value(digits.drop_last()) * 10 + (digits.last() - 0x30)) as nat
    }
}

/// The text without one leading plus sign, if it has one.
pub open spec fn unsigned_part(text: Seq<u8>) -> Seq<u8> {
    if text.len() > 0 && text[0] == 0x2b {
        text.skip(1)
    } else {
        text
    }
}

/// The 32-bit number that `text` writes in decimal: an optional plus sign,
/// then one digit or more and nothing else, with a value of at most
/// `u32::MAX`. Any other text writes none.
pub open spec fn decimal_u32(text: Seq<u8>) -> Option<u32> {
    let digits = unsigned_part(text);
    if digits.len() > 0 && all_digits(digits) && digits_value(digits) <= u32::MAX {
        Some(digits_value(digits) as u32)
    } else {
        None
    }
}

/// A run of digits is worth at least as much as any run it begins with.
proof fn lemma_value_grows(digits: Seq<u8>, n: int)
    requires
        0 <= n <= digits.len(),
        all_digits(digits),
    ensures
        digits_value(digits.take(n)) <= digits_value(digits),
    decreases digits.len() - n,
{
    if n < digits.len() {
        lemma_value_grows(digits, n + 1);
        let longer = digits.take(n + 1);
        assert(longer.drop_last() =~= digits.take(n));
        assert(is_digit(digits[n]));
        assert(longer.last() == digits[n]);
    } else {
        assert(digits.take(n) =~= digits);
    }
}

/// Reads a batch size: a decimal number of at most 32 bits, written with an
/// optional plus sign and digits alone.
pub fn parse_batch_size(text: &str) -> (size: Result<u32, ConfigError>)
    ensures
        match decimal_u32(text.spec_bytes()) {
            Some(n) => size == Ok::<u32, ConfigError>(n),
            None => size == Err::<u32, ConfigError>(ConfigError::InvalidBatchSize),
        },
{
    let bytes = text.as_bytes();
    let start: usize = if bytes.len() > 0 && bytes[0] == 0x2b { 1 } else { 0 };
    let ghost digits = unsigned_part(bytes@);
    assert(digits =~= bytes@.skip(start as int));
    if start == bytes.len() {
        return Err(ConfigError::InvalidBatchSize);
    }
    let mut value: u32 = 0;
    let mut i: usize = start;
    while i < bytes.len()
        invariant
            start <= i <= bytes.len(),
            digits == bytes@.skip(start as int),
            digits == unsigned_part(text.spec_bytes()),
            all_digits(digits.take(i - start)),
            value == digits_value(digits.take(i - start)),
        decreases bytes.len() - i,
    {
        let byte = bytes[i];
        let ghost seen = digits.take(i - start);
        let ghost more = digits.take(i - start + 1);
        assert(more.drop_last() =~= seen);
        assert(more.last() == byte);
        if byte < 0x30 || byte > 0x39 {
            assert(!is_digit(digits[i - start]));
            return Err(ConfigError::InvalidBatchSize);
        }
        assert(all_digits(more)) by {
            assert forall|k: int| 0 <= k < more.len() implies is_digit(#[trigger] more[k]) by {
                if k < seen.len() {
                    assert(more[k] == seen[k]);
                }
            }
        }
        let digit: u32 = (byte - 0x30) as u32;
        let grown = match value.checked_mul(10) {
            Some(tens) => tens.checked_add(digit),
            None => None,
        };
        match grown {
            Some(next) => {
                value = next;
            },
            None => {
                proof {
                    assert(digits_value(more) > u32::MAX);
                    if all_digits(digits) {
                        lemma_value_grows(digits, i - start + 1);
                    }
                }
                return Err(ConfigError::InvalidBatchSize);
            },
        }
        i = i + 1;
    }
    proof {
        assert(digits.take(i - start) =~= digits);
    }
    Ok(value)
}

/// The configuration that the settings call for, or what is wrong with them.
///
/// A batch size that is set must be a number, else nothing is made; where
/// none is set it is 500. The cursor file has a fixed default. Group and
/// stream name must be set; a missing group name is reported before a missing
/// stream name, and a bad batch size before both.
pub open spec fn config_of(
    aws_region: Seq<char>,
    batch_size: Option<Seq<u8>>,
    cursor_file: Option<Seq<char>>,
    log_group_name: Option<Seq<char>>,
    log_stream_name: Option<Seq<char>>,
) -> Result<ConfigModel, ConfigError> {
    let size = match batch_size {
        Some(text) => decimal_u32(text),
        None => Some(DEFAULT_BATCH_SIZE),
    };
    if size is None {
        Err(ConfigError::InvalidBatchSize)
    } else if log_group_name is None {
        Err(ConfigError::MissingLogGroupName)
    } else if log_stream_name is None {
        Err(ConfigError::MissingLogStreamName)
    } else {
        Ok(
            ConfigModel {
                aws_region,
                cursor_file: match cursor_file {
                    Some(path) => path,
                    None => default_cursor_file(),
                },
                batch_size: size->0,
                sleep_millis: SLEEP_MILLIS,
                log_group_name: log_group_name->0,
                log_stream_name: log_stream_name->0,
            },
        )
    }
}

/// The bytes of a setting, where it is set.
pub open spec fn setting_bytes(setting: Option<String>) -> Option<Seq<u8>> {
    match setting {
        Some(text) => Some(vstd::utf8::encode_utf8(text@)),
        None => None,
    }
}

/// Makes the configuration from the region and from the four settings as they
/// were found, each `None` where it is not set.
pub fn read_config(
    aws_region: String,
    batch_size: Option<String>,
    cursor_file: Option<String>,
    log_group_name: Option<String>,
    log_stream_name: Option<String>,
) -> (config: Result<Config, ConfigError>)
    ensures
        match config_of(
            aws_region@,
            setting_bytes(batch_size),
            cursor_file.deep_view(),
            log_group_name.deep_view(),
            log_stream_name.deep_view(),
        ) {
            Ok(model) => config matches Ok(made) && made@ == model,
            Err(error) => config == Err::<Config, ConfigError>(error),
        },
{
    let size = match &batch_size {
        Some(text) => match parse_batch_size(text.as_str()) {
            Ok(n) => n,
            Err(error) => {
                return Err(error);
            },
        },
        None => DEFAULT_BATCH_SIZE,
    };
    let path = match cursor_file {
        Some(path) => path,
        None => "/var/lib/cloudjournal/current-cursor".to_owned(),
    };
    let group = match log_group_name {
        Some(name) => name,
        None => {
            return Err(ConfigError::MissingLogGroupName);
        },
    };
    let stream = match log_stream_name {
        Some(name) => name,
        None => {
            return Err(ConfigError::MissingLogStreamName);
        },
    };
    Ok(
        Config {
            aws_region,
            cursor_file: path,
            batch_size: size,
            sleep_millis: SLEEP_MILLIS,
            log_group_name: group,
            log_stream_name: stream,
        },
    )
}

} // verus!

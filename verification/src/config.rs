//! The configuration: its two keys, and what makes a value valid for each.

use vstd::prelude::*;
use vstd::string::StringSliceAdditionalSpecFns;
use vstd::utf8::encode_utf8_decode_utf8;
use crate::decimal::{
    decimal_text, format_usize, parse_usize, parse_usize_spec, ParseIntError,
};
use crate::errors::{CommandConfigError, GetLibraryPathError};
use crate::store::{SqlValue, SqlValueView};

verus! {

/// Whether `key` names one of the recognized configuration keys.
pub open spec fn valid_key(key: Seq<char>) -> bool {
    key == "library"@ || key == "scan_parallelism"@
}

/// Whether two texts are the same.
pub fn same_text(a: &str, b: &str) -> (same: bool)
    ensures
        same == (a@ == b@),
{
    let x = a.as_bytes();
    let y = b.as_bytes();
    proof {
        // texts with the same bytes are the same text
        encode_utf8_decode_utf8(a@);
        encode_utf8_decode_utf8(b@);
    }
    if x.len() != y.len() {
        return false;
    }
    let mut i: usize = 0;
    while i < x.len()
        invariant
            i <= x@.len(),
            x@.len() == y@.len(),
            x@ == a.spec_bytes(),
            y@ == b.spec_bytes(),
            forall|j: int| 0 <= j < i ==> x@[j] == y@[j],
        decreases x@.len() - i,
    {
        if x[i] != y[i] {
            return false;
        }
        i = i + 1;
    }
    assert(x@ =~= y@);
    true
}

/// A configuration entry with a valid value.
#[derive(Debug)]
pub enum Config {
    /// The root of the music library: a directory, by its canonical path.
    Library(String),
    /// How many files a scan may read at once.
    ScanParallelism(usize),
}

/// An entry with its text as a sequence of characters.
pub enum ConfigView {
    Library(Seq<char>),
    ScanParallelism(usize),
}

impl View for Config {
    type V = ConfigView;

    open spec fn view(&self) -> ConfigView {
        match self {
            Config::Library(path) => ConfigView::Library(path@),
            Config::ScanParallelism(n) => ConfigView::ScanParallelism(*n),
        }
    }
}

/// What the file system says of a path.
pub struct PathProbe {
    /// Whether anything exists at the path.
    pub exists: bool,
    /// Whether what exists there is a directory.
    pub is_dir: bool,
    /// The canonical form of the path, or why it could not be had.
    pub canonical: Result<String, std::io::Error>,
}

/// Whether `err` is the refusal that a value for the key `library` earns: `DoesNotExist`
/// where nothing exists at the path, `NotADirectory` where what exists is no directory,
/// each with the value as it was given, and else the error that kept the directory from
/// being resolved.
pub open spec fn path_refused_as(value: Seq<char>, probe: PathProbe, err: GetLibraryPathError) -> bool {
    if !probe.exists {
        err matches GetLibraryPathError::DoesNotExist(path) && path@ == value
    } else if !probe.is_dir {
        err matches GetLibraryPathError::NotADirectory(path) && path@ == value
    } else {
        err matches GetLibraryPathError::IO(io) && probe.canonical == Err::<String, std::io::Error>(
            io,
        )
    }
}

/// The library root that the file system gives for a path: the canonical path of a
/// directory that could be resolved.
pub open spec fn library_path_of(probe: PathProbe) -> Option<Seq<char>> {
    if probe.exists && probe.is_dir && probe.canonical is Ok {
        Some(probe.canonical->Ok_0@)
    } else {
        None
    }
}

/// The entry that a key and a value stand for, `None` where the key is unknown or the
/// value is not valid for it.
pub open spec fn entry_of(key: Seq<char>, value: Seq<char>, probe: PathProbe) -> Option<ConfigView> {
    if key == "library"@ {
        match library_path_of(probe) {
            Some(path) => Some(ConfigView::Library(path)),
            None => None,
        }
    } else if key == "scan_parallelism"@ {
        match parse_usize_spec(value) {
            Ok(n) => Some(ConfigView::ScanParallelism(n)),
            Err(_) => None,
        }
    } else {
        None
    }
}

/// Whether `err` is the refusal that a key and a value earn: that of the path under
/// `library`, the reason why the value is no number under `scan_parallelism`, and
/// `InvalidKey` with the key under any other key.
pub open spec fn refused_as(
    key: Seq<char>,
    value: Seq<char>,
    probe: PathProbe,
    err: CommandConfigError,
) -> bool {
    if key == "library"@ {
        err matches CommandConfigError::GetLibraryPath(e) && path_refused_as(value, probe, e)
    } else if key == "scan_parallelism"@ {
        err matches CommandConfigError::InvalidScanParallelismValue(e) && parse_usize_spec(value)
            == Err::<usize, ParseIntError>(e)
    } else {
        err matches CommandConfigError::InvalidKey(k) && k@ == key
    }
}

/// Validates a value for the key `library`.
///
/// A path at which nothing exists is refused as `DoesNotExist`, and one that is no
/// directory as `NotADirectory`, each with the value as it was given. A directory gives
/// its canonical path, or the error that kept it from being resolved.
pub fn get_library_path(value: &str, probe: PathProbe) -> (path: Result<String, GetLibraryPathError>)
    ensures
        match path {
            Ok(p) => library_path_of(probe) == Some(p@),
            Err(err) => library_path_of(probe) is None && path_refused_as(value@, probe, err),
        },
{
    if !probe.exists {
        return Err(GetLibraryPathError::DoesNotExist(value.to_owned()));
    }
    if !probe.is_dir {
        return Err(GetLibraryPathError::NotADirectory(value.to_owned()));
    }
    match probe.canonical {
        Ok(canonical) => Ok(canonical),
        Err(err) => Err(GetLibraryPathError::IO(err)),
    }
}

impl Config {
    /// Tells whether `key` is a recognized configuration key.
    pub fn is_valid_key(key: &str) -> (b: bool)
        ensures
            b == valid_key(key@),
    {
        same_text(key, "library") || same_text(key, "scan_parallelism")
    }

    /// The text of the value, as it is shown.
    pub open spec fn text(self) -> Seq<char> {
        match self {
            Config::Library(path) => path@,
            Config::ScanParallelism(n) => decimal_text(n as nat),
        }
    }

    /// Writes the value out: a path as it is, a number in decimal notation.
    pub fn to_text(&self) -> (text: String)
        ensures
            text@ == self.text(),
    {
        match self {
            Config::Library(path) => path.clone(),
            Config::ScanParallelism(n) => format_usize(*n),
        }
    }

    /// The value as it is stored: a path as text, a number as a 64-bit integer (a
    /// number above `i64::MAX` wraps around).
    pub fn to_sql(&self) -> (value: SqlValue)
        ensures
            value@ == match self {
                Config::Library(path) => SqlValueView::Text(path@),
                Config::ScanParallelism(n) => SqlValueView::Integer(*n as i64),
            },
    {
        match self {
            Config::Library(path) => SqlValue::Text(path.clone()),
            Config::ScanParallelism(n) => {
                let wrapped: i64 = #[verifier::truncate]
                (*n as i64);
                SqlValue::Integer(wrapped)
            },
        }
    }

    /// Makes the entry that `key` and `value` stand for.
    ///
    /// Under `library` the value is a path, valid where `get_library_path` accepts it.
    /// Under `scan_parallelism` it is an unsigned decimal number. Any other key is
    /// refused as `InvalidKey`.
    pub fn parse(key: &str, value: &str, probe: PathProbe) -> (config: Result<
        Config,
        CommandConfigError,
    >)
        ensures
            match config {
                Ok(c) => entry_of(key@, value@, probe) == Some(c@),
                Err(err) => entry_of(key@, value@, probe) is None && refused_as(
                    key@,
                    value@,
                    probe,
                    err,
                ),
            },
    {
        proof {
            reveal_strlit("library");
            reveal_strlit("scan_parallelism");
            assert("library"@.len() != "scan_parallelism"@.len());
        }
        if same_text(key, "library") {
            match get_library_path(value, probe) {
                Ok(dir) => Ok(Config::Library(dir)),
                Err(err) => Err(CommandConfigError::GetLibraryPath(err)),
            }
        } else if same_text(key, "scan_parallelism") {
            match parse_usize(value) {
                Ok(n) => Ok(Config::ScanParallelism(n)),
                Err(err) => Err(CommandConfigError::InvalidScanParallelismValue(err)),
            }
        } else {
            Err(CommandConfigError::InvalidKey(key.to_owned()))
        }
    }
}

} // verus!

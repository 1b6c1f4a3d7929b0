use vstd::prelude::*;
use vstd::string::StringExecFns;

verus! {

/// The ways a run can fail. Every one of them ends the run.
#[derive(Debug, Clone, Copy, PartialEq, Eq, Structural)]
pub enum RunError {
    /// The remote listing could not be fetched.
    Network,
    /// The cache file could not be created, read, written or removed.
    Io,
    /// A payload, remote or cached, did not have the expected shape.
    Decode,
    /// The command-line arguments were missing or malformed.
    Usage,
    /// The chosen format has no codec.
    NotImplemented,
}

/// The serialization format of the cache file.
#[derive(Debug, Clone, Copy, PartialEq, Eq, Structural)]
pub enum Format {
    Json,
    Toml,
}

/// The file extension of a format, dot included.
pub open spec fn ext_spec(f: Format) -> Seq<char> {
    match f {
        Format::Json => ".json"@,
        Format::Toml => ".toml"@,
    }
}

/// Whether a format can encode and decode repositories.
pub open spec fn has_codec(f: Format) -> bool {
    f == Format::Json
}

impl Format {
    /// The extension that names the cache file of this format.
    pub fn get_ext(&self) -> (r: String)
        ensures
            r@ == ext_spec(*self),
    {
        match self {
            Format::Json => String::from_str(".json"),
            Format::Toml => String::from_str(".toml"),
        }
    }

    /// Succeeds when the format has a working codec; the TOML-like format
    /// is a declared extension point without one.
    pub fn codec_ready(&self) -> (r: Result<(), RunError>)
        ensures
            r is Ok <==> has_codec(*self),
            r is Err ==> r == Err::<(), RunError>(RunError::NotImplemented),
    {
        match self {
            Format::Json => Ok(()),
            Format::Toml => Err(RunError::NotImplemented),
        }
    }
}

/// The run's configuration, derived once from the command line.
#[derive(Debug, Clone)]
pub struct Parameters {
    pub clear_cache: bool,
    pub username: String,
    pub formats: Format,
    pub quiet: bool,
}

/// What a configuration holds, as plain values.
pub struct ParametersView {
    pub clear_cache: bool,
    pub username: Seq<char>,
    pub formats: Format,
    pub quiet: bool,
}

impl View for Parameters {
    type V = ParametersView;

    open spec fn view(&self) -> ParametersView {
        ParametersView {
            clear_cache: self.clear_cache,
            username: self.username@,
            formats: self.formats,
            quiet: self.quiet,
        }
    }
}

/// The configuration before any argument is read.
pub open spec fn default_view() -> ParametersView {
    ParametersView {
        clear_cache: false,
        username: Seq::<char>::empty(),
        formats: Format::Json,
        quiet: false,
    }
}

/// The format that a `-f` value names.
pub open spec fn format_named(s: Seq<char>) -> Option<Format> {
    if s == "json"@ {
        Some(Format::Json)
    } else if s == "toml"@ {
        Some(Format::Toml)
    } else {
        None
    }
}

/// Reads the arguments from position `i` on into `acc`. `-c` asks to clear
/// the cache, `-q` for quiet output, `-u` and `-f` each take the next token
/// as the username or the format; other tokens are ignored. A flag without
/// its value, an unknown format or, at the end, an empty username is a usage
/// error.
pub open spec fn parse_from(args: Seq<Seq<char>>, i: int, acc: ParametersView) -> Result<ParametersView, RunError>
    decreases args.len() - i,
{
    if i < 0 || i >= args.len() {
        if acc.username.len() == 0 {
            Err(RunError::Usage)
        } else {
            Ok(acc)
        }
    } else if args[i] == "-c"@ {
        parse_from(args, i + 1, ParametersView { clear_cache: true, ..acc })
    } else if args[i] == "-q"@ {
        parse_from(args, i + 1, ParametersView { quiet: true, ..acc })
    } else if args[i] == "-u"@ {
        if i + 1 < args.len() {
            parse_from(args, i + 2, ParametersView { username: args[i + 1], ..acc })
        } else {
            Err(RunError::Usage)
        }
    } else if args[i] == "-f"@ {
        if i + 1 < args.len() {
            match format_named(args[i + 1]) {
                Some(f) => parse_from(args, i + 2, ParametersView { formats: f, ..acc }),
                None => Err(RunError::Usage),
            }
        } else {
            Err(RunError::Usage)
        }
    } else {
        parse_from(args, i + 1, acc)
    }
}

/// The configuration that a list of arguments gives.
pub open spec fn parse_args_spec(args: Seq<Seq<char>>) -> Result<ParametersView, RunError> {
    parse_from(args, 0, default_view())
}

/// The views of a list of strings.
pub open spec fn views(args: Seq<String>) -> Seq<Seq<char>> {
    args.map_values(|a: String| a@)
}

impl Parameters {
    /// The configuration before any argument is read: JSON, no clearing,
    /// not quiet, no username.
    pub fn new() -> (r: Parameters)
        ensures
            r@ == default_view(),
    {
        Parameters {
            clear_cache: false,
            username: String::new(),
            formats: Format::Json,
            quiet: false,
        }
    }

    /// Builds the configuration from the command-line arguments (the program
    /// name excluded).
    pub fn from_args(args: &Vec<String>) -> (r: Result<Parameters, RunError>)
        ensures
            match r {
                Ok(p) => parse_args_spec(views(args@)) == Ok::<ParametersView, RunError>(p@),
                Err(e) => parse_args_spec(views(args@)) == Err::<ParametersView, RunError>(e),
            },
    {
        let flag_c = String::from_str("-c");
        let flag_q = String::from_str("-q");
        let flag_u = String::from_str("-u");
        let flag_f = String::from_str("-f");
        let name_json = String::from_str("json");
        let name_toml = String::from_str("toml");
        let ghost vs = views(args@);
        let mut p = Parameters::new();
        let n = args.len();
        let mut i: usize = 0;
        while i < n
            invariant
                n == args@.len(),
                vs == views(args@),
                vs.len() == n,
                i <= n,
                flag_c@ == "-c"@, flag_q@ == "-q"@, flag_u@ == "-u"@, flag_f@ == "-f"@,
                name_json@ == "json"@, name_toml@ == "toml"@,
                parse_from(vs, i as int, p@) == parse_args_spec(vs),
            decreases n - i,
        {
            assert(vs[i as int] == args@[i as int]@);
            let a = &args[i];
            if *a == flag_c {
                p.clear_cache = true;
                i = i + 1;
            } else if *a == flag_q {
                p.quiet = true;
                i = i + 1;
            } else if *a == flag_u {
                if i + 1 < n {
                    assert(vs[i + 1] == args@[i + 1]@);
                    p.username = args[i + 1].clone();
                    i = i + 2;
                } else {
                    return Err(RunError::Usage);
                }
            } else if *a == flag_f {
                if i + 1 < n {
                    assert(vs[i + 1] == args@[i + 1]@);
                    let v = &args[i + 1];
                    if *v == name_json {
                        p.formats = Format::Json;
                    } else if *v == name_toml {
                        p.formats = Format::Toml;
                    } else {
                        return Err(RunError::Usage);
                    }
                    i = i + 2;
                } else {
                    return Err(RunError::Usage);
                }
            } else {
                i = i + 1;
            }
        }
        if p.username.as_str().is_empty() {
            Err(RunError::Usage)
        } else {
            Ok(p)
        }
    }
}

impl Default for Parameters {
    fn default() -> (r: Parameters)
        ensures
            r@ == default_view(),
    {
        Parameters::new()
    }
}

} // verus!

//! Command-line handling: flags, the configuration path and the help text.
//!
//! `args[0]` is the program's name; the arguments proper follow it.
use vstd::prelude::*;
use crate::text::text_eq;

verus! {

/// The first index at or after `from` where `flag` stands in `args`.
pub open spec fn find_arg(args: Seq<Seq<char>>, flag: Seq<char>, from: int) -> Option<int>
    decreases args.len() - from,
{
    if from < 0 || from >= args.len() {
        None
    } else if args[from] == flag {
        Some(from)
    } else {
        find_arg(args, flag, from + 1)
    }
}

/// Whether `flag` is among the arguments that follow the program's name.
pub open spec fn spec_has_flag(args: Seq<Seq<char>>, flag: Seq<char>) -> bool {
    exists|i: int| 1 <= i < args.len() && args[i] == flag
}

/// The relative path of the configuration file under the home directory.
pub open spec fn default_config_relative() -> Seq<char> {
    ".config/solimon"@
}

/// `home` joined with the default configuration path, as `Path::join` joins
/// a relative path: a `'/'` goes between them unless `home` is empty or
/// already ends with one.
pub open spec fn home_config_path(home: Seq<char>) -> Seq<char> {
    if home.len() == 0 || home.last() == '/' {
        home + default_config_relative()
    } else {
        home + seq!['/'] + default_config_relative()
    }
}

/// The view of an optional string.
pub open spec fn option_text(o: Option<&str>) -> Option<Seq<char>> {
    match o {
        Some(s) => Some(s@),
        None => None,
    }
}

/// The view of a string result.
pub open spec fn result_text<E>(r: Result<String, E>) -> Result<Seq<char>, E> {
    match r {
        Ok(s) => Ok(s@),
        Err(e) => Err(e),
    }
}

/// Why no configuration path could be determined.
#[derive(Debug, Clone, Copy, PartialEq, Eq, Structural)]
pub enum ConfigPathError {
    /// No `-c` was given and the home directory is unknown.
    NoHomeDirectory,
    /// `-c` was the last argument, with no path after it.
    MissingConfigValue,
}

impl ConfigPathError {
    /// The error's message.
    pub fn message(&self) -> (m: String)
        ensures
            *self == ConfigPathError::NoHomeDirectory ==> m@
                == "failed to determine home directory for default config path"@,
            *self == ConfigPathError::MissingConfigValue ==> m@
                == "a value is required for '-c <config>' but none was supplied"@,
    {
        match self {
            ConfigPathError::NoHomeDirectory => String::from_str(
                "failed to determine home directory for default config path",
            ),
            ConfigPathError::MissingConfigValue => String::from_str(
                "a value is required for '-c <config>' but none was supplied",
            ),
        }
    }
}

/// The configuration path that the arguments and the home directory give:
/// the value after the first `-c`, else the default file under `home`.
pub open spec fn spec_config_path(args: Seq<Seq<char>>, home: Option<Seq<char>>) -> Result<
    Seq<char>,
    ConfigPathError,
> {
    match find_arg(args, "-c"@, 1) {
        Some(i) => if i + 1 < args.len() {
            Ok(args[i + 1])
        } else {
            Err(ConfigPathError::MissingConfigValue)
        },
        None => match home {
            Some(h) => Ok(home_config_path(h)),
            None => Err(ConfigPathError::NoHomeDirectory),
        },
    }
}

fn find_flag(args: &[String], flag: &str) -> (r: Option<usize>)
    ensures
        match r {
            Some(i) => find_arg(args.deep_view(), flag@, 1) == Some(i as int),
            None => find_arg(args.deep_view(), flag@, 1) is None,
        },
{
    let ghost a = args.deep_view();
    let n = args.len();
    if n == 0 {
        return None;
    }
    let mut i: usize = 1;
    while i < n
        invariant
            n == a.len(),
            a == args.deep_view(),
            1 <= i <= n,
            find_arg(a, flag@, 1) == find_arg(a, flag@, i as int),
        decreases n - i,
    {
        if text_eq(args[i].as_str(), flag) {
            return Some(i);
        }
        i = i + 1;
    }
    None
}

proof fn lemma_find_arg_found(args: Seq<Seq<char>>, flag: Seq<char>, from: int)
    requires
        from >= 1,
    ensures
        find_arg(args, flag, from) is Some <==> exists|i: int|
            from <= i < args.len() && args[i] == flag,
        find_arg(args, flag, from) matches Some(i) ==> from <= i < args.len() && args[i]
            == flag,
    decreases args.len() - from,
{
    if from < args.len() && args[from] != flag {
        lemma_find_arg_found(args, flag, from + 1);
        if exists|i: int| from <= i < args.len() && args[i] == flag {
            let i = choose|i: int| from <= i < args.len() && args[i] == flag;
            assert(from + 1 <= i);
        }
    }
}

/// Whether `flag` stands among the arguments after the program's name.
pub fn has_flag(args: &[String], flag: &str) -> (r: bool)
    ensures
        r == spec_has_flag(args.deep_view(), flag@),
{
    let found = find_flag(args, flag);
    proof {
        lemma_find_arg_found(args.deep_view(), flag@, 1);
    }
    found.is_some()
}

/// The configuration path: the value of `-c` if given, else
/// `.config/solimon` under the home directory.
pub fn config_path_from_args(args: &[String], home_dir: Option<&str>) -> (r: Result<
    String,
    ConfigPathError,
>)
    ensures
        result_text(r) == spec_config_path(args.deep_view(), option_text(home_dir)),
{
    proof {
        lemma_find_arg_found(args.deep_view(), "-c"@, 1);
    }
    match find_flag(args, "-c") {
        Some(i) => {
            if i < args.len() - 1 {
                let p = args[i + 1].clone();
                assert(p@ == args.deep_view()[i + 1]);
                Ok(p)
            } else {
                Err(ConfigPathError::MissingConfigValue)
            }
        },
        None => match home_dir {
            Some(home) => {
                let mut path = String::from_str(home);
                let n = home.unicode_len();
                if n > 0 && home.get_char(n - 1) != '/' {
                    proof { reveal_strlit("/"); }
                    path.append("/");
                }
                path.append(".config/solimon");
                assert(path@ =~= home_config_path(home@));
                Ok(path)
            },
            None => Err(ConfigPathError::NoHomeDirectory),
        },
    }
}

/// Law: a path given with `-c` is used whatever the home directory is, and
/// the home directory only matters when no `-c` is given.
pub proof fn lemma_explicit_config_path_wins(
    args: Seq<Seq<char>>,
    home1: Option<Seq<char>>,
    home2: Option<Seq<char>>,
)
    requires
        spec_has_flag(args, "-c"@),
    ensures
        spec_config_path(args, home1) == spec_config_path(args, home2),
        forall|i: int|
            #![trigger args[i]]
            find_arg(args, "-c"@, 1) == Some(i) && i + 1 < args.len() ==> spec_config_path(
                args,
                home1,
            ) == Ok::<Seq<char>, ConfigPathError>(args[i + 1]),
{
    lemma_find_arg_found(args, "-c"@, 1);
}

/// Law: the program's name never counts as a flag, and a flag given among
/// the arguments is found wherever it stands after the name.
pub proof fn lemma_has_flag_ignores_program_name(
    args: Seq<Seq<char>>,
    flag: Seq<char>,
    name: Seq<char>,
)
    requires
        args.len() > 0,
    ensures
        spec_has_flag(args.update(0, name), flag) == spec_has_flag(args, flag),
        spec_has_flag(args.push(flag), flag),
        !spec_has_flag(seq![flag], flag),
{
    assert(args.push(flag)[args.len() as int] == flag);
    if spec_has_flag(args, flag) {
        let i = choose|i: int| 1 <= i < args.len() && args[i] == flag;
        assert(args.update(0, name)[i] == flag);
    }
    if spec_has_flag(args.update(0, name), flag) {
        let i = choose|i: int| 1 <= i < args.len() && args.update(0, name)[i] == flag;
        assert(args[i] == flag);
    }
}

/// Law: the value after the first `-c` that follows the program's name is
/// the configuration path, whatever comes later and whatever the home
/// directory; `-c` as the last argument is an error.
pub proof fn lemma_config_path_from_first_flag(
    args: Seq<Seq<char>>,
    home: Option<Seq<char>>,
    i: int,
)
    requires
        1 <= i < args.len(),
        args[i] == "-c"@,
        forall|j: int| 1 <= j < i ==> args[j] != "-c"@,
    ensures
        i + 1 < args.len() ==> spec_config_path(args, home) == Ok::<
            Seq<char>,
            ConfigPathError,
        >(args[i + 1]),
        i + 1 == args.len() ==> spec_config_path(args, home) == Err::<
            Seq<char>,
            ConfigPathError,
        >(ConfigPathError::MissingConfigValue),
{
    lemma_find_arg_prefix(args, "-c"@, 1, i);
}

proof fn lemma_find_arg_prefix(args: Seq<Seq<char>>, flag: Seq<char>, from: int, i: int)
    requires
        1 <= from <= i < args.len(),
        args[i] == flag,
        forall|j: int| from <= j < i ==> args[j] != flag,
    ensures
        find_arg(args, flag, from) == Some(i),
    decreases i - from,
{
    if from < i {
        lemma_find_arg_prefix(args, flag, from + 1, i);
    }
}

/// Law: with no `-c`, the path is `.config/solimon` under the home
/// directory, with exactly one `/` between them (none added when the home
/// directory is empty or ends with one), and an error when the home
/// directory is unknown.
pub proof fn lemma_config_path_default(args: Seq<Seq<char>>, home: Option<Seq<char>>)
    requires
        forall|j: int| 1 <= j < args.len() ==> args[j] != "-c"@,
    ensures
        home is None ==> spec_config_path(args, home) == Err::<Seq<char>, ConfigPathError>(
            ConfigPathError::NoHomeDirectory,
        ),
        home matches Some(h) ==> (h.len() > 0 && h.last() != '/' ==> spec_config_path(args, home)
            == Ok::<Seq<char>, ConfigPathError>(h + "/.config/solimon"@)),
        home matches Some(h) ==> (h.len() == 0 || h.last() == '/' ==> spec_config_path(args, home)
            == Ok::<Seq<char>, ConfigPathError>(h + ".config/solimon"@)),
{
    lemma_find_arg_found(args, "-c"@, 1);
    reveal_strlit("/.config/solimon");
    reveal_strlit(".config/solimon");
    if let Some(h) = home {
        assert(h + seq!['/'] + ".config/solimon"@ =~= h + "/.config/solimon"@);
    }
}

/// The text that `-h` prints.
pub open spec fn spec_short_help() -> Seq<char> {
    "Read Solinteg inverter data over Modbus TCP\n\nUsage: solinteg-read [-c <config>] [-j] [-1] [--dump-config]\n\nOptions:\n  -c <config>      Read config from path\n  -j, --json       Print readings as JSON\n  -1               Read once and exit\n      --dump-config  Print configured values and exit\n  -h, --help       Print help\n"@
}

/// The usage text of the program.
pub fn short_help() -> (r: &'static str)
    ensures
        r@ == spec_short_help(),
{
    "Read Solinteg inverter data over Modbus TCP\n\nUsage: solinteg-read [-c <config>] [-j] [-1] [--dump-config]\n\nOptions:\n  -c <config>      Read config from path\n  -j, --json       Print readings as JSON\n  -1               Read once and exit\n      --dump-config  Print configured values and exit\n  -h, --help       Print help\n"
}

} // verus!

//! Build-script resolution: from the recipe's ambiguous authoring surface
//! to the literal script text, its environment-activation preamble, and
//! the interpreter that will run it.
//!
//! The recipe may give a script as a conventional file, an explicit path,
//! a string that could be either a path or inline text, a command list,
//! or a single command.  The functions here decide which file — if any —
//! must be read, and what the script body is once the read's outcome is
//! known; reading and writing the files happens outside.

use vstd::prelude::*;

use crate::text::base_name_spec;
use crate::text::base_name;
use crate::text::contains_char;
use crate::text::ends_with_spec;
use crate::text::ends_with;
use crate::text::join_newline;
use crate::text::join_with;
use crate::text::path_join;
use crate::text::replace_all_spec;
use crate::text::replace_all;

verus! {

/// The family of the build's target platform; it alone decides script
/// extensions, preambles, and the interpreter.
#[derive(Clone, Copy, Debug, PartialEq, Eq, Structural)]
pub enum TargetFamily {
    /// A POSIX target: shell scripts.
    Unix,
    /// A Windows-family target: batch scripts.
    Windows,
}

/// How a recipe authors its build script.
#[derive(Debug, Clone, PartialEq, Eq)]
pub enum ScriptContent {
    /// No script was specified: read the conventional file, empty if it
    /// is absent.
    Default,
    /// An explicit script path: missing is a hard error.
    ExplicitPath(String),
    /// A string that may be a path or the script itself.
    CommandOrPath(String),
    /// A sequence of shell commands, joined by newlines.
    CommandList(Vec<String>),
    /// One literal command string.
    SingleCommand(String),
}

/// Mathematical model of [`ScriptContent`].
pub enum ScriptContentV {
    /// Read the conventional file, empty if absent.
    Default,
    /// An explicit script path.
    ExplicitPath(Seq<char>),
    /// A string that may be a path or the script itself.
    CommandOrPath(Seq<char>),
    /// A sequence of shell commands.
    CommandList(Seq<Seq<char>>),
    /// One literal command string.
    SingleCommand(Seq<char>),
}

impl View for ScriptContent {
    type V = ScriptContentV;

    open spec fn view(&self) -> ScriptContentV {
        match self {
            ScriptContent::Default => ScriptContentV::Default,
            ScriptContent::ExplicitPath(p) => ScriptContentV::ExplicitPath(p@),
            ScriptContent::CommandOrPath(s) => ScriptContentV::CommandOrPath(s@),
            ScriptContent::CommandList(cs) => ScriptContentV::CommandList(cs.deep_view()),
            ScriptContent::SingleCommand(c) => ScriptContentV::SingleCommand(c@),
        }
    }
}

/// An error raised while resolving the build script.
#[derive(Debug, Clone, PartialEq, Eq)]
pub enum ScriptError {
    /// An explicitly named script file does not exist.
    NotFound(String),
    /// Any other failure reading a script file.
    Io(String),
}

/// Mathematical model of [`ScriptError`].
pub enum ScriptErrorV {
    /// An explicitly named script file does not exist.
    NotFound(Seq<char>),
    /// Any other failure reading a script file.
    Io(Seq<char>),
}

impl View for ScriptError {
    type V = ScriptErrorV;

    open spec fn view(&self) -> ScriptErrorV {
        match self {
            ScriptError::NotFound(p) => ScriptErrorV::NotFound(p@),
            ScriptError::Io(m) => ScriptErrorV::Io(m@),
        }
    }
}

impl ScriptError {
    /// The one-line diagnostic rendering of this error.
    pub open spec fn message_spec(&self) -> Seq<char> {
        match self {
            ScriptError::NotFound(p) => "recipe file \""@ + p@ + "\" does not exist"@,
            ScriptError::Io(m) => m@,
        }
    }

    /// Render this error as one diagnostic line.
    pub fn message(&self) -> (r: String)
        ensures
            r@ == self.message_spec(),
    {
        match self {
            ScriptError::NotFound(p) => {
                let mut text = String::from_str("recipe file \"");
                text.append(p.as_str());
                text.append("\" does not exist");
                text
            },
            ScriptError::Io(m) => m.clone(),
        }
    }
}

/// What a requested script-file read reported back.
#[derive(Debug, Clone, PartialEq, Eq)]
pub enum ReadOutcome {
    /// The file exists; its content.
    Found(String),
    /// The file does not exist.
    NotFound,
    /// Any other failure; the diagnostic text.
    Failed(String),
}

/// Mathematical model of [`ReadOutcome`].
pub enum ReadOutcomeV {
    /// The file exists; its content.
    Found(Seq<char>),
    /// The file does not exist.
    NotFound,
    /// Any other failure.
    Failed(Seq<char>),
}

impl View for ReadOutcome {
    type V = ReadOutcomeV;

    open spec fn view(&self) -> ReadOutcomeV {
        match self {
            ReadOutcome::Found(c) => ReadOutcomeV::Found(c@),
            ReadOutcome::NotFound => ReadOutcomeV::NotFound,
            ReadOutcome::Failed(m) => ReadOutcomeV::Failed(m@),
        }
    }
}

/// The script-file extension of a target family.
pub open spec fn default_extension_spec(family: TargetFamily) -> Seq<char> {
    match family {
        TargetFamily::Unix => "sh"@,
        TargetFamily::Windows => "bat"@,
    }
}

/// The script-file extension of a target family.
pub fn default_extension(family: TargetFamily) -> (r: &'static str)
    ensures
        r@ == default_extension_spec(family),
{
    match family {
        TargetFamily::Unix => "sh",
        TargetFamily::Windows => "bat",
    }
}

/// True when the path's final component carries an extension: a `.`
/// after its first character.
pub open spec fn has_extension_spec(path: Seq<char>) -> bool {
    exists|k: int| 0 < k < base_name_spec(path).len() && base_name_spec(path)[k] == '.'
}

/// Whether the path's final component carries an extension.
pub fn has_extension(path: &str) -> (b: bool)
    ensures
        b == has_extension_spec(path@),
{
    let name = base_name(path);
    let len = name.as_str().unicode_len();
    let mut k: usize = 1;
    while k < len
        invariant
            1 <= k,
            len == name@.len(),
            name@ == base_name_spec(path@),
            forall|j: int| 0 < j < k ==> name@[j] != '.',
        decreases len - k,
    {
        if name.as_str().get_char(k) == '.' {
            return true;
        }
        k += 1;
    }
    false
}

/// `path`, given the default extension when its final component has none.
pub open spec fn with_default_extension_spec(path: Seq<char>, ext: Seq<char>) -> Seq<char> {
    if has_extension_spec(path) {
        path
    } else {
        path + seq!['.'] + ext
    }
}

/// Give `path` the default extension when it has none of its own.
pub fn ensure_extension(path: &str, ext: &str) -> (r: String)
    ensures
        r@ == with_default_extension_spec(path@, ext@),
{
    if has_extension(path) {
        String::from_str(path)
    } else {
        proof {
            reveal_strlit(".");
        }
        let mut r = String::from_str(path);
        r.append(".");
        r.append(ext);
        proof {
            assert(path@ + "."@ + ext@ =~= path@ + seq!['.'] + ext@);
        }
        r
    }
}

/// True when an ambiguous script string is treated as a path: a single
/// line that ends in a known script extension.
pub open spec fn script_is_pathlike(s: Seq<char>) -> bool {
    !s.contains('\n') && (ends_with_spec(s, ".bat"@) || ends_with_spec(s, ".sh"@))
}

/// The script file a content form asks to read, if any: the conventional
/// file for the default form, the explicit path with a defaulted
/// extension, or an ambiguous string that looks like a path; command
/// forms read nothing.
pub open spec fn script_read_request_spec(
    content: ScriptContentV,
    recipe_dir: Seq<char>,
    default_ext: Seq<char>,
) -> Option<Seq<char>> {
    match content {
        ScriptContentV::Default => Some(recipe_dir + seq!['/'] + "build."@ + default_ext),
        ScriptContentV::ExplicitPath(p) => Some(
            recipe_dir + seq!['/'] + with_default_extension_spec(p, default_ext),
        ),
        ScriptContentV::CommandOrPath(s) => if script_is_pathlike(s) {
            Some(recipe_dir + seq!['/'] + s)
        } else {
            None
        },
        ScriptContentV::CommandList(_) => None,
        ScriptContentV::SingleCommand(_) => None,
    }
}

/// Decide which script file, if any, must be read for this content form.
pub fn script_read_request(content: &ScriptContent, recipe_dir: &str, default_ext: &str) -> (r:
    Option<String>)
    ensures
        r.deep_view() == script_read_request_spec(content@, recipe_dir@, default_ext@),
{
    match content {
        ScriptContent::Default => {
            let mut name = String::from_str("build.");
            name.append(default_ext);
            Some(path_join(recipe_dir, name.as_str()))
        },
        ScriptContent::ExplicitPath(p) => {
            let with_ext = ensure_extension(p.as_str(), default_ext);
            Some(path_join(recipe_dir, with_ext.as_str()))
        },
        ScriptContent::CommandOrPath(s) => {
            let single_line = !contains_char(s.as_str(), '\n');
            if single_line && (ends_with(s.as_str(), ".bat") || ends_with(s.as_str(), ".sh")) {
                Some(path_join(recipe_dir, s.as_str()))
            } else {
                None
            }
        },
        ScriptContent::CommandList(_) => None,
        ScriptContent::SingleCommand(_) => None,
    }
}

/// The literal script body, once the outcome of the requested read — the
/// file named by [`script_read_request_spec`], reported as `tried` — is
/// known.
///
/// The default form treats a missing file as an empty script; an explicit
/// path treats it as a hard error; an ambiguous path-like string falls
/// back to its own text; command forms ignore the outcome entirely.  Any
/// read failure other than absence propagates.
pub open spec fn resolve_script_body_spec(
    content: ScriptContentV,
    tried: Seq<char>,
    outcome: ReadOutcomeV,
) -> Result<Seq<char>, ScriptErrorV> {
    match content {
        ScriptContentV::Default => match outcome {
            ReadOutcomeV::Found(c) => Ok(c),
            ReadOutcomeV::NotFound => Ok(Seq::empty()),
            ReadOutcomeV::Failed(m) => Err(ScriptErrorV::Io(m)),
        },
        ScriptContentV::ExplicitPath(_) => match outcome {
            ReadOutcomeV::Found(c) => Ok(c),
            ReadOutcomeV::NotFound => Err(ScriptErrorV::NotFound(tried)),
            ReadOutcomeV::Failed(m) => Err(ScriptErrorV::Io(m)),
        },
        ScriptContentV::CommandOrPath(s) => if script_is_pathlike(s) {
            match outcome {
                ReadOutcomeV::Found(c) => Ok(c),
                ReadOutcomeV::NotFound => Ok(s),
                ReadOutcomeV::Failed(m) => Err(ScriptErrorV::Io(m)),
            }
        } else {
            Ok(s)
        },
        ScriptContentV::CommandList(cs) => Ok(join_with(cs, seq!['\n'])),
        ScriptContentV::SingleCommand(c) => Ok(c),
    }
}

/// Decide the literal script body from the content form and the outcome
/// of the requested read; `tried` is the file the request named.
pub fn resolve_script_body(content: &ScriptContent, tried: &str, outcome: &ReadOutcome) -> (r:
    Result<String, ScriptError>)
    ensures
        match r {
            Ok(body) => resolve_script_body_spec(content@, tried@, outcome@) == Ok::<
                Seq<char>,
                ScriptErrorV,
            >(body@),
            Err(e) => resolve_script_body_spec(content@, tried@, outcome@) == Err::<
                Seq<char>,
                ScriptErrorV,
            >(e@),
        },
{
    match content {
        ScriptContent::Default => match outcome {
            ReadOutcome::Found(c) => Ok(c.clone()),
            ReadOutcome::NotFound => Ok(String::new()),
            ReadOutcome::Failed(m) => Err(ScriptError::Io(m.clone())),
        },
        ScriptContent::ExplicitPath(_) => match outcome {
            ReadOutcome::Found(c) => Ok(c.clone()),
            ReadOutcome::NotFound => Err(ScriptError::NotFound(String::from_str(tried))),
            ReadOutcome::Failed(m) => Err(ScriptError::Io(m.clone())),
        },
        ScriptContent::CommandOrPath(s) => {
            let single_line = !contains_char(s.as_str(), '\n');
            if single_line && (ends_with(s.as_str(), ".bat") || ends_with(s.as_str(), ".sh")) {
                match outcome {
                    ReadOutcome::Found(c) => Ok(c.clone()),
                    ReadOutcome::NotFound => Ok(s.clone()),
                    ReadOutcome::Failed(m) => Err(ScriptError::Io(m.clone())),
                }
            } else {
                Ok(s.clone())
            }
        },
        ScriptContent::CommandList(cs) => Ok(join_newline(cs)),
        ScriptContent::SingleCommand(c) => Ok(c.clone()),
    }
}

/// An inline command string holding a newline is never treated as a
/// path, whatever extension its lines end in: nothing is read for it,
/// and its body is the string itself, whatever any read reported.
pub proof fn lemma_inline_command_never_path(
    s: Seq<char>,
    recipe_dir: Seq<char>,
    default_ext: Seq<char>,
    tried: Seq<char>,
    outcome: ReadOutcomeV,
)
    requires
        s.contains('\n'),
    ensures
        script_read_request_spec(ScriptContentV::CommandOrPath(s), recipe_dir, default_ext)
            is None,
        resolve_script_body_spec(ScriptContentV::CommandOrPath(s), tried, outcome) == Ok::<
            Seq<char>,
            ScriptErrorV,
        >(s),
{
}

/// An ambiguous script string whose file is absent is used verbatim as
/// the script body rather than erroring, path-like or not.
pub proof fn lemma_missing_path_falls_back(s: Seq<char>, tried: Seq<char>)
    ensures
        resolve_script_body_spec(ScriptContentV::CommandOrPath(s), tried, ReadOutcomeV::NotFound)
            == Ok::<Seq<char>, ScriptErrorV>(s),
{
}

/// A recipe with no script file present yields an empty script body, not
/// an error.
pub proof fn lemma_default_missing_is_empty(tried: Seq<char>)
    ensures
        resolve_script_body_spec(ScriptContentV::Default, tried, ReadOutcomeV::NotFound) == Ok::<
            Seq<char>,
            ScriptErrorV,
        >(Seq::empty()),
{
}

/// The shell preamble template; the generated environment-activation
/// script's path replaces the placeholder.  It sources that script only
/// when the marker variable is unset, then enables command tracing.
pub const BASH_PREAMBLE: &'static str = "\n## Start of bash preamble\nif [ -z ${CONDA_BUILD+x} ]; then\n    source ((script_path))\nfi\n# enable debug mode for the rest of the script\nset -x\n## End of preamble\n";

/// The shell preamble for a POSIX target: the template with the
/// environment-activation script's path substituted in.
pub fn bash_preamble(env_script_path: &str) -> (r: String)
    ensures
        r@ == replace_all_spec(BASH_PREAMBLE@, "((script_path))"@, env_script_path@),
{
    replace_all(BASH_PREAMBLE, "((script_path))", env_script_path)
}

/// The batch preamble for a Windows-family target: call the
/// environment-activation script only when the marker variable is unset.
pub fn cmd_preamble(env_script_path: &str) -> (r: String)
    ensures
        r@ == "IF \"%CONDA_BUILD%\" == \"\" (\n    call "@ + env_script_path@ + "\n)"@,
{
    let mut r = String::from_str("IF \"%CONDA_BUILD%\" == \"\" (\n    call ");
    r.append(env_script_path);
    r.append("\n)");
    r
}

/// The full script text: the preamble, one newline, then the resolved
/// body.
pub fn full_script(preamble: &str, body: &str) -> (r: String)
    ensures
        r@ == preamble@ + seq!['\n'] + body@,
{
    proof {
        reveal_strlit("\n");
    }
    let mut r = String::from_str(preamble);
    r.append("\n");
    r.append(body);
    proof {
        assert(preamble@ + "\n"@ + body@ =~= preamble@ + seq!['\n'] + body@);
    }
    r
}

/// The environment-activation script's path inside the work directory;
/// its extension follows the target family alone.
pub fn env_script_path(work_dir: &str, family: TargetFamily) -> (r: String)
    ensures
        r@ == work_dir@ + seq!['/'] + "build_env."@ + default_extension_spec(family),
{
    let mut name = String::from_str("build_env.");
    name.append(default_extension(family));
    path_join(work_dir, name.as_str())
}

/// The generated build script's path inside the work directory; its
/// extension follows the target family alone.
pub fn build_script_path(work_dir: &str, family: TargetFamily) -> (r: String)
    ensures
        r@ == work_dir@ + seq!['/'] + "conda_build."@ + default_extension_spec(family),
{
    let mut name = String::from_str("conda_build.");
    name.append(default_extension(family));
    path_join(work_dir, name.as_str())
}

/// The interpreter and argument vector that run the generated script:
/// in one-to-one correspondence with the platform branch that chose the
/// script's extension.
pub fn interpreter_command(family: TargetFamily, script_path: &str) -> (r: (String, Vec<String>))
    ensures
        family is Unix ==> r.0@ == "/bin/bash"@ && r.1.deep_view() == seq!["-e"@, script_path@],
        family is Windows ==> r.0@ == "cmd.exe"@ && r.1.deep_view() == seq![
            "/d"@,
            "/c"@,
            script_path@,
        ],
{
    match family {
        TargetFamily::Unix => {
            let mut args: Vec<String> = Vec::new();
            args.push(String::from_str("-e"));
            args.push(String::from_str(script_path));
            proof {
                assert(args.deep_view() =~= seq!["-e"@, script_path@]);
            }
            (String::from_str("/bin/bash"), args)
        },
        TargetFamily::Windows => {
            let mut args: Vec<String> = Vec::new();
            args.push(String::from_str("/d"));
            args.push(String::from_str("/c"));
            args.push(String::from_str(script_path));
            proof {
                assert(args.deep_view() =~= seq!["/d"@, "/c"@, script_path@]);
            }
            (String::from_str("cmd.exe"), args)
        },
    }
}

/// The warning for a declared script interpreter, which is recognized
/// but intentionally unsupported: it is reported, never an error.
pub fn interpreter_warning(interpreter: &Option<String>) -> (r: Option<String>)
    ensures
        r is Some <==> interpreter is Some,
        r matches Some(m) ==> m@ == "build.script.interpreter is not supported yet"@,
{
    match interpreter {
        Some(_) => Some(String::from_str("build.script.interpreter is not supported yet")),
        None => None,
    }
}

} // verus!

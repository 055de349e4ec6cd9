//! The fixed file layout of the worker runtime.
//!
//! Every file the host touches lives under one application directory inside
//! the system's temporary directory: the worker's interpreter, its script,
//! the configuration files and the output artifact.  The host supplies the
//! temporary directory (an OS query) and whether it runs on Windows; the
//! joining rules themselves are verified here.  Paths are joined with a
//! forward slash.

use vstd::prelude::*;
use crate::text::{path_join, str_concat, str_equal};

verus! {

/// The interpreter's path inside the application directory.
pub open spec fn python_path_spec(temp_dir: Seq<char>, windows: bool) -> Seq<char> {
    if windows {
        temp_dir + "/venv/Scripts/python.exe"@
    } else {
        temp_dir + "/venv/bin/python"@
    }
}

/// The paths of everything the host keeps in its application directory.
pub struct EnvPaths {
    /// The worker interpreter.
    pub python: String,
    /// The configuration file.
    pub config: String,
    /// The application directory itself.
    pub temp_dir: String,
    /// The worker script.
    pub main_py: String,
    /// The environment file handed to the worker.
    pub env: String,
    /// The audio artifact the worker produces.
    pub output_file: String,
}

impl EnvPaths {
    /// Builds the layout under `base_temp` (the system temporary directory).
    pub fn new(base_temp: &str, windows: bool) -> (paths: EnvPaths)
        ensures
            paths.temp_dir@ == base_temp@ + "/"@ + "musiccomposer"@,
            paths.python@ == python_path_spec(paths.temp_dir@, windows),
            paths.config@ == paths.temp_dir@ + "/"@ + "config.json"@,
            paths.main_py@ == paths.temp_dir@ + "/"@ + "main.py"@,
            paths.env@ == paths.temp_dir@ + "/"@ + ".env"@,
            paths.output_file@ == paths.temp_dir@ + "/"@ + "output.wav"@,
    {
        let temp_dir = path_join(base_temp, "musiccomposer");
        let python = if windows {
            str_concat(temp_dir.as_str(), "/venv/Scripts/python.exe")
        } else {
            str_concat(temp_dir.as_str(), "/venv/bin/python")
        };
        let config = path_join(temp_dir.as_str(), "config.json");
        let main_py = path_join(temp_dir.as_str(), "main.py");
        let env = path_join(temp_dir.as_str(), ".env");
        let output_file = path_join(temp_dir.as_str(), "output.wav");
        EnvPaths { python, config, temp_dir, main_py, env, output_file }
    }
}

/// Where a bundled resource of each kind lives, relative to the host's
/// resource directory; `None` for an unsupported kind.
pub open spec fn resource_rel_path_spec(kind: Seq<char>) -> Option<Seq<char>> {
    if kind == "python"@ {
        Some("bin/dependency/venv"@)
    } else if kind == "config"@ {
        Some("bin/dependency/config.json"@)
    } else if kind == "main_py"@ {
        Some("bin/dependency/main.py"@)
    } else if kind == "env"@ {
        Some("bin/dependency/.env"@)
    } else if kind == "fluidsynth"@ {
        Some("bin/dependency/fluidsynth.exe"@)
    } else {
        None
    }
}

/// The relative path of the bundled resource of the given kind.
pub fn resource_rel_path(kind: &str) -> (r: Option<&'static str>)
    ensures
        match r {
            Some(p) => resource_rel_path_spec(kind@) == Some(p@),
            None => resource_rel_path_spec(kind@) is None,
        },
{
    if str_equal(kind, "python") {
        Some("bin/dependency/venv")
    } else if str_equal(kind, "config") {
        Some("bin/dependency/config.json")
    } else if str_equal(kind, "main_py") {
        Some("bin/dependency/main.py")
    } else if str_equal(kind, "env") {
        Some("bin/dependency/.env")
    } else if str_equal(kind, "fluidsynth") {
        Some("bin/dependency/fluidsynth.exe")
    } else {
        None
    }
}

} // verus!

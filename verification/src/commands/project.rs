//! Project scaffolding: which directories and files a new project starts
//! with. Nothing is written here; the caller creates what is listed.

use vstd::prelude::*;
use vstd::string::StringExecFns;

verus! {

/// A file of a new project.
#[derive(Debug, PartialEq, Eq)]
pub struct ScaffoldFile {
    pub path: String,
    pub contents: String,
}

/// What a new project starts with: the directories to create, then the files
/// to write, each list in the order in which it is to be worked off.
#[derive(Debug, PartialEq, Eq)]
pub struct Scaffold {
    pub directories: Vec<String>,
    pub files: Vec<ScaffoldFile>,
}

/// The directory of the sources.
pub open spec fn source_directory(name: Seq<char>) -> Seq<char> {
    name + "/src"@
}

/// The directory of the build outputs.
pub open spec fn build_directory(name: Seq<char>) -> Seq<char> {
    name + "/build"@
}

/// The path of the starter source file.
pub open spec fn main_file_path(name: Seq<char>) -> Seq<char> {
    name + "/src/main.th"@
}

/// The starter source file.
pub open spec fn main_file_contents() -> Seq<char> {
    "fn main() {\n\n  // The code starts running here. \n\n}\n"@
}

/// The path of the project file.
pub open spec fn project_file_path(name: Seq<char>) -> Seq<char> {
    name + "/Project.toml"@
}

/// The project file: it names the project and leaves the rest to be filled in.
pub open spec fn project_file_contents(name: Seq<char>) -> Seq<char> {
    "[project]\nname = \""@ + name + "\"\n\n[compiler]\ntarget = \"\"\n\n[dependencies]\n"@
}

fn join(head: &str, tail: &str) -> (joined: String)
    ensures
        joined@ == head@ + tail@,
{
    head.to_owned().concat(tail)
}

/// Lists what the project `name` starts with: the directories `src` and
/// `build` under `name`, the starter source file and the project file.
pub fn create(name: &str) -> (scaffold: Scaffold)
    ensures
        scaffold.directories@.len() == 2,
        scaffold.directories@[0]@ == source_directory(name@),
        scaffold.directories@[1]@ == build_directory(name@),
        scaffold.files@.len() == 2,
        scaffold.files@[0].path@ == main_file_path(name@),
        scaffold.files@[0].contents@ == main_file_contents(),
        scaffold.files@[1].path@ == project_file_path(name@),
        scaffold.files@[1].contents@ == project_file_contents(name@),
{
    let mut directories: Vec<String> = Vec::new();
    directories.push(join(name, "/src"));
    directories.push(join(name, "/build"));

    let mut files: Vec<ScaffoldFile> = Vec::new();
    files.push(
        ScaffoldFile {
            path: join(name, "/src/main.th"),
            contents: "fn main() {\n\n  // The code starts running here. \n\n}\n".to_owned(),
        },
    );
    let contents = join("[project]\nname = \"", name).concat(
        "\"\n\n[compiler]\ntarget = \"\"\n\n[dependencies]\n",
    );
    files.push(ScaffoldFile { path: join(name, "/Project.toml"), contents });

    Scaffold { directories, files }
}

} // verus!

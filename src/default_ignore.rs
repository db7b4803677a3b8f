//! The built-in exclusion policy.
use vstd::prelude::*;

verus! {

/// Lists of file globs and directory names left out of the output.
pub struct DefaultIgnore {
    pub ignore_files: Vec<String>,
    pub ignore_dirs: Vec<String>,
}

/// The texts of a list of strings.
pub open spec fn string_texts(v: Seq<String>) -> Seq<Seq<char>> {
    v.map_values(|s: String| s@)
}

/// The directory names that the built-in policy leaves out.
pub open spec fn default_dir_names() -> Seq<Seq<char>> {
    seq!["node_modules"@, ".git"@, ".idea"@, ".vscode"@]
}

/// The file globs that the built-in policy leaves out.
pub open spec fn default_file_globs() -> Seq<Seq<char>> {
    seq![
        "*LICENCE.md"@, "*CHANGELOG.md"@, "*.DS_Store"@, "*.all-contributorsrc"@,
        "*.yaml"@, "*.yml"@, "*.json"@, "*.csv"@, "*.svg"@, "*.conf"@, "*.ini"@,
        "*.env"@, "*.log"@, "*.tmp"@, "*.pyc"@, "*.class"@, "*.o"@, "*.obj"@,
        "*.exe"@, "*.dll"@, "*.so"@, "*.dylib"@, "*.ncb"@, "*.sdf"@, "*.suo"@,
        "*.pdb"@, "*.idb"@, "*.lock"@, "*.toml"@, ".prettierrc.*"@, "*.txt"@,
        "Pipfile"@, "*.cfg"@, ".gitignore"@, ".gitattributes"@, ".dockerignore"@,
        ".env"@, ".flaskenv"@, ".editorconfig"@, "Makefile"@, "CMakeLists.txt"@,
    ]
}

impl Default for DefaultIgnore {
    fn default() -> (r: Self)
        ensures
            string_texts(r.ignore_dirs@) == default_dir_names(),
            string_texts(r.ignore_files@) == default_file_globs(),
    {
        let ignore_dirs = vec![
            "node_modules".to_owned(), ".git".to_owned(), ".idea".to_owned(),
            ".vscode".to_owned(),
        ];
        let ignore_files = vec![
            "*LICENCE.md".to_owned(), "*CHANGELOG.md".to_owned(), "*.DS_Store".to_owned(),
            "*.all-contributorsrc".to_owned(), "*.yaml".to_owned(), "*.yml".to_owned(),
            "*.json".to_owned(), "*.csv".to_owned(), "*.svg".to_owned(), "*.conf".to_owned(),
            "*.ini".to_owned(), "*.env".to_owned(), "*.log".to_owned(), "*.tmp".to_owned(),
            "*.pyc".to_owned(), "*.class".to_owned(), "*.o".to_owned(), "*.obj".to_owned(),
            "*.exe".to_owned(), "*.dll".to_owned(), "*.so".to_owned(), "*.dylib".to_owned(),
            "*.ncb".to_owned(), "*.sdf".to_owned(), "*.suo".to_owned(), "*.pdb".to_owned(),
            "*.idb".to_owned(), "*.lock".to_owned(), "*.toml".to_owned(),
            ".prettierrc.*".to_owned(), "*.txt".to_owned(), "Pipfile".to_owned(),
            "*.cfg".to_owned(), ".gitignore".to_owned(), ".gitattributes".to_owned(),
            ".dockerignore".to_owned(), ".env".to_owned(), ".flaskenv".to_owned(),
            ".editorconfig".to_owned(), "Makefile".to_owned(), "CMakeLists.txt".to_owned(),
        ];
        assert(string_texts(ignore_dirs@) =~= default_dir_names());
        assert(string_texts(ignore_files@) =~= default_file_globs());
        DefaultIgnore { ignore_files, ignore_dirs }
    }
}

} // verus!

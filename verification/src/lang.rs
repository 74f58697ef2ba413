//! Closed catalog of highlightable languages.
//!
//! Languages are identified as *PascalCase* enum members and as *kebab-case*
//! strings; every member resolves to exactly one canonical string, used both
//! for lookups and for building per-language script URLs. The catalog order
//! (alphabetical by canonical name) is the order in which per-language
//! scripts are emitted, which keeps resolution deterministic for any set of
//! enabled languages.

use vstd::prelude::*;

verus! {

/// Number of members of the language catalog.
pub const NUM_LANGS: usize = 96;

/// Supported languages.
#[derive(Clone, Copy, Debug, PartialEq, Eq, Structural)]
pub enum HljsLang {
    Abnf,
    Accesslog,
    Actionscript,
    Ada,
    Apache,
    Applescript,
    Arduino,
    Armasm,
    Asciidoc,
    Autohotkey,
    Awk,
    Bash,
    Basic,
    Bnf,
    C,
    Clojure,
    Cmake,
    Coffeescript,
    Cpp,
    Crystal,
    Csharp,
    Css,
    D,
    Dart,
    Delphi,
    Diff,
    Django,
    Dns,
    Dockerfile,
    Dos,
    Ebnf,
    Elixir,
    Elm,
    Erlang,
    Excel,
    Fortran,
    Fsharp,
    Gherkin,
    Glsl,
    Go,
    Gradle,
    Graphql,
    Groovy,
    Haml,
    Handlebars,
    Haskell,
    Http,
    Ini,
    Java,
    Javascript,
    Json,
    Julia,
    Kotlin,
    Latex,
    Less,
    Lisp,
    Llvm,
    Lua,
    Makefile,
    Markdown,
    Matlab,
    Nginx,
    Nim,
    Nix,
    Objectivec,
    Ocaml,
    Perl,
    Pgsql,
    Php,
    Plaintext,
    Powershell,
    Prolog,
    Properties,
    Protobuf,
    Puppet,
    Python,
    R,
    Ruby,
    Rust,
    Scala,
    Scss,
    Shell,
    Smalltalk,
    Sql,
    Swift,
    Twig,
    Typescript,
    Vala,
    Vbnet,
    Verilog,
    Vhdl,
    Vim,
    Wasm,
    X86asm,
    Xml,
    Yaml,
}

impl HljsLang {
    /// Canonical kebab-case name of this language.
    pub open spec fn spec_name(self) -> Seq<char> {
        match self {
            HljsLang::Abnf => "abnf"@,
            HljsLang::Accesslog => "accesslog"@,
            HljsLang::Actionscript => "actionscript"@,
            HljsLang::Ada => "ada"@,
            HljsLang::Apache => "apache"@,
            HljsLang::Applescript => "applescript"@,
            HljsLang::Arduino => "arduino"@,
            HljsLang::Armasm => "armasm"@,
            HljsLang::Asciidoc => "asciidoc"@,
            HljsLang::Autohotkey => "autohotkey"@,
            HljsLang::Awk => "awk"@,
            HljsLang::Bash => "bash"@,
            HljsLang::Basic => "basic"@,
            HljsLang::Bnf => "bnf"@,
            HljsLang::C => "c"@,
            HljsLang::Clojure => "clojure"@,
            HljsLang::Cmake => "cmake"@,
            HljsLang::Coffeescript => "coffeescript"@,
            HljsLang::Cpp => "cpp"@,
            HljsLang::Crystal => "crystal"@,
            HljsLang::Csharp => "csharp"@,
            HljsLang::Css => "css"@,
            HljsLang::D => "d"@,
            HljsLang::Dart => "dart"@,
            HljsLang::Delphi => "delphi"@,
            HljsLang::Diff => "diff"@,
            HljsLang::Django => "django"@,
            HljsLang::Dns => "dns"@,
            HljsLang::Dockerfile => "dockerfile"@,
            HljsLang::Dos => "dos"@,
            HljsLang::Ebnf => "ebnf"@,
            HljsLang::Elixir => "elixir"@,
            HljsLang::Elm => "elm"@,
            HljsLang::Erlang => "erlang"@,
            HljsLang::Excel => "excel"@,
            HljsLang::Fortran => "fortran"@,
            HljsLang::Fsharp => "fsharp"@,
            HljsLang::Gherkin => "gherkin"@,
            HljsLang::Glsl => "glsl"@,
            HljsLang::Go => "go"@,
            HljsLang::Gradle => "gradle"@,
            HljsLang::Graphql => "graphql"@,
            HljsLang::Groovy => "groovy"@,
            HljsLang::Haml => "haml"@,
            HljsLang::Handlebars => "handlebars"@,
            HljsLang::Haskell => "haskell"@,
            HljsLang::Http => "http"@,
            HljsLang::Ini => "ini"@,
            HljsLang::Java => "java"@,
            HljsLang::Javascript => "javascript"@,
            HljsLang::Json => "json"@,
            HljsLang::Julia => "julia"@,
            HljsLang::Kotlin => "kotlin"@,
            HljsLang::Latex => "latex"@,
            HljsLang::Less => "less"@,
            HljsLang::Lisp => "lisp"@,
            HljsLang::Llvm => "llvm"@,
            HljsLang::Lua => "lua"@,
            HljsLang::Makefile => "makefile"@,
            HljsLang::Markdown => "markdown"@,
            HljsLang::Matlab => "matlab"@,
            HljsLang::Nginx => "nginx"@,
            HljsLang::Nim => "nim"@,
            HljsLang::Nix => "nix"@,
            HljsLang::Objectivec => "objectivec"@,
            HljsLang::Ocaml => "ocaml"@,
            HljsLang::Perl => "perl"@,
            HljsLang::Pgsql => "pgsql"@,
            HljsLang::Php => "php"@,
            HljsLang::Plaintext => "plaintext"@,
            HljsLang::Powershell => "powershell"@,
            HljsLang::Prolog => "prolog"@,
            HljsLang::Properties => "properties"@,
            HljsLang::Protobuf => "protobuf"@,
            HljsLang::Puppet => "puppet"@,
            HljsLang::Python => "python"@,
            HljsLang::R => "r"@,
            HljsLang::Ruby => "ruby"@,
            HljsLang::Rust => "rust"@,
            HljsLang::Scala => "scala"@,
            HljsLang::Scss => "scss"@,
            HljsLang::Shell => "shell"@,
            HljsLang::Smalltalk => "smalltalk"@,
            HljsLang::Sql => "sql"@,
            HljsLang::Swift => "swift"@,
            HljsLang::Twig => "twig"@,
            HljsLang::Typescript => "typescript"@,
            HljsLang::Vala => "vala"@,
            HljsLang::Vbnet => "vbnet"@,
            HljsLang::Verilog => "verilog"@,
            HljsLang::Vhdl => "vhdl"@,
            HljsLang::Vim => "vim"@,
            HljsLang::Wasm => "wasm"@,
            HljsLang::X86asm => "x86asm"@,
            HljsLang::Xml => "xml"@,
            HljsLang::Yaml => "yaml"@,
        }
    }

    /// Returns the canonical kebab-case name of this language.
    pub fn name(&self) -> (r: &'static str)
        ensures
            r@ == self.spec_name(),
    {
        match self {
            HljsLang::Abnf => "abnf",
            HljsLang::Accesslog => "accesslog",
            HljsLang::Actionscript => "actionscript",
            HljsLang::Ada => "ada",
            HljsLang::Apache => "apache",
            HljsLang::Applescript => "applescript",
            HljsLang::Arduino => "arduino",
            HljsLang::Armasm => "armasm",
            HljsLang::Asciidoc => "asciidoc",
            HljsLang::Autohotkey => "autohotkey",
            HljsLang::Awk => "awk",
            HljsLang::Bash => "bash",
            HljsLang::Basic => "basic",
            HljsLang::Bnf => "bnf",
            HljsLang::C => "c",
            HljsLang::Clojure => "clojure",
            HljsLang::Cmake => "cmake",
            HljsLang::Coffeescript => "coffeescript",
            HljsLang::Cpp => "cpp",
            HljsLang::Crystal => "crystal",
            HljsLang::Csharp => "csharp",
            HljsLang::Css => "css",
            HljsLang::D => "d",
            HljsLang::Dart => "dart",
            HljsLang::Delphi => "delphi",
            HljsLang::Diff => "diff",
            HljsLang::Django => "django",
            HljsLang::Dns => "dns",
            HljsLang::Dockerfile => "dockerfile",
            HljsLang::Dos => "dos",
            HljsLang::Ebnf => "ebnf",
            HljsLang::Elixir => "elixir",
            HljsLang::Elm => "elm",
            HljsLang::Erlang => "erlang",
            HljsLang::Excel => "excel",
            HljsLang::Fortran => "fortran",
            HljsLang::Fsharp => "fsharp",
            HljsLang::Gherkin => "gherkin",
            HljsLang::Glsl => "glsl",
            HljsLang::Go => "go",
            HljsLang::Gradle => "gradle",
            HljsLang::Graphql => "graphql",
            HljsLang::Groovy => "groovy",
            HljsLang::Haml => "haml",
            HljsLang::Handlebars => "handlebars",
            HljsLang::Haskell => "haskell",
            HljsLang::Http => "http",
            HljsLang::Ini => "ini",
            HljsLang::Java => "java",
            HljsLang::Javascript => "javascript",
            HljsLang::Json => "json",
            HljsLang::Julia => "julia",
            HljsLang::Kotlin => "kotlin",
            HljsLang::Latex => "latex",
            HljsLang::Less => "less",
            HljsLang::Lisp => "lisp",
            HljsLang::Llvm => "llvm",
            HljsLang::Lua => "lua",
            HljsLang::Makefile => "makefile",
            HljsLang::Markdown => "markdown",
            HljsLang::Matlab => "matlab",
            HljsLang::Nginx => "nginx",
            HljsLang::Nim => "nim",
            HljsLang::Nix => "nix",
            HljsLang::Objectivec => "objectivec",
            HljsLang::Ocaml => "ocaml",
            HljsLang::Perl => "perl",
            HljsLang::Pgsql => "pgsql",
            HljsLang::Php => "php",
            HljsLang::Plaintext => "plaintext",
            HljsLang::Powershell => "powershell",
            HljsLang::Prolog => "prolog",
            HljsLang::Properties => "properties",
            HljsLang::Protobuf => "protobuf",
            HljsLang::Puppet => "puppet",
            HljsLang::Python => "python",
            HljsLang::R => "r",
            HljsLang::Ruby => "ruby",
            HljsLang::Rust => "rust",
            HljsLang::Scala => "scala",
            HljsLang::Scss => "scss",
            HljsLang::Shell => "shell",
            HljsLang::Smalltalk => "smalltalk",
            HljsLang::Sql => "sql",
            HljsLang::Swift => "swift",
            HljsLang::Twig => "twig",
            HljsLang::Typescript => "typescript",
            HljsLang::Vala => "vala",
            HljsLang::Vbnet => "vbnet",
            HljsLang::Verilog => "verilog",
            HljsLang::Vhdl => "vhdl",
            HljsLang::Vim => "vim",
            HljsLang::Wasm => "wasm",
            HljsLang::X86asm => "x86asm",
            HljsLang::Xml => "xml",
            HljsLang::Yaml => "yaml",
        }
    }

    /// Language denoted by a canonical kebab-case name, if it is
    /// recognized.
    pub open spec fn spec_from_name(s: Seq<char>) -> Option<HljsLang> {
        if s == "abnf"@ {
            Some(HljsLang::Abnf)
        } else if s == "accesslog"@ {
            Some(HljsLang::Accesslog)
        } else if s == "actionscript"@ {
            Some(HljsLang::Actionscript)
        } else if s == "ada"@ {
            Some(HljsLang::Ada)
        } else if s == "apache"@ {
            Some(HljsLang::Apache)
        } else if s == "applescript"@ {
            Some(HljsLang::Applescript)
        } else if s == "arduino"@ {
            Some(HljsLang::Arduino)
        } else if s == "armasm"@ {
            Some(HljsLang::Armasm)
        } else if s == "asciidoc"@ {
            Some(HljsLang::Asciidoc)
        } else if s == "autohotkey"@ {
            Some(HljsLang::Autohotkey)
        } else if s == "awk"@ {
            Some(HljsLang::Awk)
        } else if s == "bash"@ {
            Some(HljsLang::Bash)
        } else if s == "basic"@ {
            Some(HljsLang::Basic)
        } else if s == "bnf"@ {
            Some(HljsLang::Bnf)
        } else if s == "c"@ {
            Some(HljsLang::C)
        } else if s == "clojure"@ {
            Some(HljsLang::Clojure)
        } else if s == "cmake"@ {
            Some(HljsLang::Cmake)
        } else if s == "coffeescript"@ {
            Some(HljsLang::Coffeescript)
        } else if s == "cpp"@ {
            Some(HljsLang::Cpp)
        } else if s == "crystal"@ {
            Some(HljsLang::Crystal)
        } else if s == "csharp"@ {
            Some(HljsLang::Csharp)
        } else if s == "css"@ {
            Some(HljsLang::Css)
        } else if s == "d"@ {
            Some(HljsLang::D)
        } else if s == "dart"@ {
            Some(HljsLang::Dart)
        } else if s == "delphi"@ {
            Some(HljsLang::Delphi)
        } else if s == "diff"@ {
            Some(HljsLang::Diff)
        } else if s == "django"@ {
            Some(HljsLang::Django)
        } else if s == "dns"@ {
            Some(HljsLang::Dns)
        } else if s == "dockerfile"@ {
            Some(HljsLang::Dockerfile)
        } else if s == "dos"@ {
            Some(HljsLang::Dos)
        } else if s == "ebnf"@ {
            Some(HljsLang::Ebnf)
        } else if s == "elixir"@ {
            Some(HljsLang::Elixir)
        } else if s == "elm"@ {
            Some(HljsLang::Elm)
        } else if s == "erlang"@ {
            Some(HljsLang::Erlang)
        } else if s == "excel"@ {
            Some(HljsLang::Excel)
        } else if s == "fortran"@ {
            Some(HljsLang::Fortran)
        } else if s == "fsharp"@ {
            Some(HljsLang::Fsharp)
        } else if s == "gherkin"@ {
            Some(HljsLang::Gherkin)
        } else if s == "glsl"@ {
            Some(HljsLang::Glsl)
        } else if s == "go"@ {
            Some(HljsLang::Go)
        } else if s == "gradle"@ {
            Some(HljsLang::Gradle)
        } else if s == "graphql"@ {
            Some(HljsLang::Graphql)
        } else if s == "groovy"@ {
            Some(HljsLang::Groovy)
        } else if s == "haml"@ {
            Some(HljsLang::Haml)
        } else if s == "handlebars"@ {
            Some(HljsLang::Handlebars)
        } else if s == "haskell"@ {
            Some(HljsLang::Haskell)
        } else if s == "http"@ {
            Some(HljsLang::Http)
        } else if s == "ini"@ {
            Some(HljsLang::Ini)
        } else if s == "java"@ {
            Some(HljsLang::Java)
        } else if s == "javascript"@ {
            Some(HljsLang::Javascript)
        } else if s == "json"@ {
            Some(HljsLang::Json)
        } else if s == "julia"@ {
            Some(HljsLang::Julia)
        } else if s == "kotlin"@ {
            Some(HljsLang::Kotlin)
        } else if s == "latex"@ {
            Some(HljsLang::Latex)
        } else if s == "less"@ {
            Some(HljsLang::Less)
        } else if s == "lisp"@ {
            Some(HljsLang::Lisp)
        } else if s == "llvm"@ {
            Some(HljsLang::Llvm)
        } else if s == "lua"@ {
            Some(HljsLang::Lua)
        } else if s == "makefile"@ {
            Some(HljsLang::Makefile)
        } else if s == "markdown"@ {
            Some(HljsLang::Markdown)
        } else if s == "matlab"@ {
            Some(HljsLang::Matlab)
        } else if s == "nginx"@ {
            Some(HljsLang::Nginx)
        } else if s == "nim"@ {
            Some(HljsLang::Nim)
        } else if s == "nix"@ {
            Some(HljsLang::Nix)
        } else if s == "objectivec"@ {
            Some(HljsLang::Objectivec)
        } else if s == "ocaml"@ {
            Some(HljsLang::Ocaml)
        } else if s == "perl"@ {
            Some(HljsLang::Perl)
        } else if s == "pgsql"@ {
            Some(HljsLang::Pgsql)
        } else if s == "php"@ {
            Some(HljsLang::Php)
        } else if s == "plaintext"@ {
            Some(HljsLang::Plaintext)
        } else if s == "powershell"@ {
            Some(HljsLang::Powershell)
        } else if s == "prolog"@ {
            Some(HljsLang::Prolog)
        } else if s == "properties"@ {
            Some(HljsLang::Properties)
        } else if s == "protobuf"@ {
            Some(HljsLang::Protobuf)
        } else if s == "puppet"@ {
            Some(HljsLang::Puppet)
        } else if s == "python"@ {
            Some(HljsLang::Python)
        } else if s == "r"@ {
            Some(HljsLang::R)
        } else if s == "ruby"@ {
            Some(HljsLang::Ruby)
        } else if s == "rust"@ {
            Some(HljsLang::Rust)
        } else if s == "scala"@ {
            Some(HljsLang::Scala)
        } else if s == "scss"@ {
            Some(HljsLang::Scss)
        } else if s == "shell"@ {
            Some(HljsLang::Shell)
        } else if s == "smalltalk"@ {
            Some(HljsLang::Smalltalk)
        } else if s == "sql"@ {
            Some(HljsLang::Sql)
        } else if s == "swift"@ {
            Some(HljsLang::Swift)
        } else if s == "twig"@ {
            Some(HljsLang::Twig)
        } else if s == "typescript"@ {
            Some(HljsLang::Typescript)
        } else if s == "vala"@ {
            Some(HljsLang::Vala)
        } else if s == "vbnet"@ {
            Some(HljsLang::Vbnet)
        } else if s == "verilog"@ {
            Some(HljsLang::Verilog)
        } else if s == "vhdl"@ {
            Some(HljsLang::Vhdl)
        } else if s == "vim"@ {
            Some(HljsLang::Vim)
        } else if s == "wasm"@ {
            Some(HljsLang::Wasm)
        } else if s == "x86asm"@ {
            Some(HljsLang::X86asm)
        } else if s == "xml"@ {
            Some(HljsLang::Xml)
        } else if s == "yaml"@ {
            Some(HljsLang::Yaml)
        } else {
            None
        }
    }

    /// Looks a language up by its canonical name; `None` outside the
    /// closed catalog.
    pub fn from_name(s: &str) -> (r: Option<HljsLang>)
        ensures
            r == HljsLang::spec_from_name(s@),
    {
        if crate::text::str_eq(s, "abnf") {
            Some(HljsLang::Abnf)
        } else if crate::text::str_eq(s, "accesslog") {
            Some(HljsLang::Accesslog)
        } else if crate::text::str_eq(s, "actionscript") {
            Some(HljsLang::Actionscript)
        } else if crate::text::str_eq(s, "ada") {
            Some(HljsLang::Ada)
        } else if crate::text::str_eq(s, "apache") {
            Some(HljsLang::Apache)
        } else if crate::text::str_eq(s, "applescript") {
            Some(HljsLang::Applescript)
        } else if crate::text::str_eq(s, "arduino") {
            Some(HljsLang::Arduino)
        } else if crate::text::str_eq(s, "armasm") {
            Some(HljsLang::Armasm)
        } else if crate::text::str_eq(s, "asciidoc") {
            Some(HljsLang::Asciidoc)
        } else if crate::text::str_eq(s, "autohotkey") {
            Some(HljsLang::Autohotkey)
        } else if crate::text::str_eq(s, "awk") {
            Some(HljsLang::Awk)
        } else if crate::text::str_eq(s, "bash") {
            Some(HljsLang::Bash)
        } else if crate::text::str_eq(s, "basic") {
            Some(HljsLang::Basic)
        } else if crate::text::str_eq(s, "bnf") {
            Some(HljsLang::Bnf)
        } else if crate::text::str_eq(s, "c") {
            Some(HljsLang::C)
        } else if crate::text::str_eq(s, "clojure") {
            Some(HljsLang::Clojure)
        } else if crate::text::str_eq(s, "cmake") {
            Some(HljsLang::Cmake)
        } else if crate::text::str_eq(s, "coffeescript") {
            Some(HljsLang::Coffeescript)
        } else if crate::text::str_eq(s, "cpp") {
            Some(HljsLang::Cpp)
        } else if crate::text::str_eq(s, "crystal") {
            Some(HljsLang::Crystal)
        } else if crate::text::str_eq(s, "csharp") {
            Some(HljsLang::Csharp)
        } else if crate::text::str_eq(s, "css") {
            Some(HljsLang::Css)
        } else if crate::text::str_eq(s, "d") {
            Some(HljsLang::D)
        } else if crate::text::str_eq(s, "dart") {
            Some(HljsLang::Dart)
        } else if crate::text::str_eq(s, "delphi") {
            Some(HljsLang::Delphi)
        } else if crate::text::str_eq(s, "diff") {
            Some(HljsLang::Diff)
        } else if crate::text::str_eq(s, "django") {
            Some(HljsLang::Django)
        } else if crate::text::str_eq(s, "dns") {
            Some(HljsLang::Dns)
        } else if crate::text::str_eq(s, "dockerfile") {
            Some(HljsLang::Dockerfile)
        } else if crate::text::str_eq(s, "dos") {
            Some(HljsLang::Dos)
        } else if crate::text::str_eq(s, "ebnf") {
            Some(HljsLang::Ebnf)
        } else if crate::text::str_eq(s, "elixir") {
            Some(HljsLang::Elixir)
        } else if crate::text::str_eq(s, "elm") {
            Some(HljsLang::Elm)
        } else if crate::text::str_eq(s, "erlang") {
            Some(HljsLang::Erlang)
        } else if crate::text::str_eq(s, "excel") {
            Some(HljsLang::Excel)
        } else if crate::text::str_eq(s, "fortran") {
            Some(HljsLang::Fortran)
        } else if crate::text::str_eq(s, "fsharp") {
            Some(HljsLang::Fsharp)
        } else if crate::text::str_eq(s, "gherkin") {
            Some(HljsLang::Gherkin)
        } else if crate::text::str_eq(s, "glsl") {
            Some(HljsLang::Glsl)
        } else if crate::text::str_eq(s, "go") {
            Some(HljsLang::Go)
        } else if crate::text::str_eq(s, "gradle") {
            Some(HljsLang::Gradle)
        } else if crate::text::str_eq(s, "graphql") {
            Some(HljsLang::Graphql)
        } else if crate::text::str_eq(s, "groovy") {
            Some(HljsLang::Groovy)
        } else if crate::text::str_eq(s, "haml") {
            Some(HljsLang::Haml)
        } else if crate::text::str_eq(s, "handlebars") {
            Some(HljsLang::Handlebars)
        } else if crate::text::str_eq(s, "haskell") {
            Some(HljsLang::Haskell)
        } else if crate::text::str_eq(s, "http") {
            Some(HljsLang::Http)
        } else if crate::text::str_eq(s, "ini") {
            Some(HljsLang::Ini)
        } else if crate::text::str_eq(s, "java") {
            Some(HljsLang::Java)
        } else if crate::text::str_eq(s, "javascript") {
            Some(HljsLang::Javascript)
        } else if crate::text::str_eq(s, "json") {
            Some(HljsLang::Json)
        } else if crate::text::str_eq(s, "julia") {
            Some(HljsLang::Julia)
        } else if crate::text::str_eq(s, "kotlin") {
            Some(HljsLang::Kotlin)
        } else if crate::text::str_eq(s, "latex") {
            Some(HljsLang::Latex)
        } else if crate::text::str_eq(s, "less") {
            Some(HljsLang::Less)
        } else if crate::text::str_eq(s, "lisp") {
            Some(HljsLang::Lisp)
        } else if crate::text::str_eq(s, "llvm") {
            Some(HljsLang::Llvm)
        } else if crate::text::str_eq(s, "lua") {
            Some(HljsLang::Lua)
        } else if crate::text::str_eq(s, "makefile") {
            Some(HljsLang::Makefile)
        } else if crate::text::str_eq(s, "markdown") {
            Some(HljsLang::Markdown)
        } else if crate::text::str_eq(s, "matlab") {
            Some(HljsLang::Matlab)
        } else if crate::text::str_eq(s, "nginx") {
            Some(HljsLang::Nginx)
        } else if crate::text::str_eq(s, "nim") {
            Some(HljsLang::Nim)
        } else if crate::text::str_eq(s, "nix") {
            Some(HljsLang::Nix)
        } else if crate::text::str_eq(s, "objectivec") {
            Some(HljsLang::Objectivec)
        } else if crate::text::str_eq(s, "ocaml") {
            Some(HljsLang::Ocaml)
        } else if crate::text::str_eq(s, "perl") {
            Some(HljsLang::Perl)
        } else if crate::text::str_eq(s, "pgsql") {
            Some(HljsLang::Pgsql)
        } else if crate::text::str_eq(s, "php") {
            Some(HljsLang::Php)
        } else if crate::text::str_eq(s, "plaintext") {
            Some(HljsLang::Plaintext)
        } else if crate::text::str_eq(s, "powershell") {
            Some(HljsLang::Powershell)
        } else if crate::text::str_eq(s, "prolog") {
            Some(HljsLang::Prolog)
        } else if crate::text::str_eq(s, "properties") {
            Some(HljsLang::Properties)
        } else if crate::text::str_eq(s, "protobuf") {
            Some(HljsLang::Protobuf)
        } else if crate::text::str_eq(s, "puppet") {
            Some(HljsLang::Puppet)
        } else if crate::text::str_eq(s, "python") {
            Some(HljsLang::Python)
        } else if crate::text::str_eq(s, "r") {
            Some(HljsLang::R)
        } else if crate::text::str_eq(s, "ruby") {
            Some(HljsLang::Ruby)
        } else if crate::text::str_eq(s, "rust") {
            Some(HljsLang::Rust)
        } else if crate::text::str_eq(s, "scala") {
            Some(HljsLang::Scala)
        } else if crate::text::str_eq(s, "scss") {
            Some(HljsLang::Scss)
        } else if crate::text::str_eq(s, "shell") {
            Some(HljsLang::Shell)
        } else if crate::text::str_eq(s, "smalltalk") {
            Some(HljsLang::Smalltalk)
        } else if crate::text::str_eq(s, "sql") {
            Some(HljsLang::Sql)
        } else if crate::text::str_eq(s, "swift") {
            Some(HljsLang::Swift)
        } else if crate::text::str_eq(s, "twig") {
            Some(HljsLang::Twig)
        } else if crate::text::str_eq(s, "typescript") {
            Some(HljsLang::Typescript)
        } else if crate::text::str_eq(s, "vala") {
            Some(HljsLang::Vala)
        } else if crate::text::str_eq(s, "vbnet") {
            Some(HljsLang::Vbnet)
        } else if crate::text::str_eq(s, "verilog") {
            Some(HljsLang::Verilog)
        } else if crate::text::str_eq(s, "vhdl") {
            Some(HljsLang::Vhdl)
        } else if crate::text::str_eq(s, "vim") {
            Some(HljsLang::Vim)
        } else if crate::text::str_eq(s, "wasm") {
            Some(HljsLang::Wasm)
        } else if crate::text::str_eq(s, "x86asm") {
            Some(HljsLang::X86asm)
        } else if crate::text::str_eq(s, "xml") {
            Some(HljsLang::Xml)
        } else if crate::text::str_eq(s, "yaml") {
            Some(HljsLang::Yaml)
        } else {
            None
        }
    }

    /// Position of this language in the catalog order.
    pub open spec fn spec_index(self) -> int {
        match self {
            HljsLang::Abnf => 0,
            HljsLang::Accesslog => 1,
            HljsLang::Actionscript => 2,
            HljsLang::Ada => 3,
            HljsLang::Apache => 4,
            HljsLang::Applescript => 5,
            HljsLang::Arduino => 6,
            HljsLang::Armasm => 7,
            HljsLang::Asciidoc => 8,
            HljsLang::Autohotkey => 9,
            HljsLang::Awk => 10,
            HljsLang::Bash => 11,
            HljsLang::Basic => 12,
            HljsLang::Bnf => 13,
            HljsLang::C => 14,
            HljsLang::Clojure => 15,
            HljsLang::Cmake => 16,
            HljsLang::Coffeescript => 17,
            HljsLang::Cpp => 18,
            HljsLang::Crystal => 19,
            HljsLang::Csharp => 20,
            HljsLang::Css => 21,
            HljsLang::D => 22,
            HljsLang::Dart => 23,
            HljsLang::Delphi => 24,
            HljsLang::Diff => 25,
            HljsLang::Django => 26,
            HljsLang::Dns => 27,
            HljsLang::Dockerfile => 28,
            HljsLang::Dos => 29,
            HljsLang::Ebnf => 30,
            HljsLang::Elixir => 31,
            HljsLang::Elm => 32,
            HljsLang::Erlang => 33,
            HljsLang::Excel => 34,
            HljsLang::Fortran => 35,
            HljsLang::Fsharp => 36,
            HljsLang::Gherkin => 37,
            HljsLang::Glsl => 38,
            HljsLang::Go => 39,
            HljsLang::Gradle => 40,
            HljsLang::Graphql => 41,
            HljsLang::Groovy => 42,
            HljsLang::Haml => 43,
            HljsLang::Handlebars => 44,
            HljsLang::Haskell => 45,
            HljsLang::Http => 46,
            HljsLang::Ini => 47,
            HljsLang::Java => 48,
            HljsLang::Javascript => 49,
            HljsLang::Json => 50,
            HljsLang::Julia => 51,
            HljsLang::Kotlin => 52,
            HljsLang::Latex => 53,
            HljsLang::Less => 54,
            HljsLang::Lisp => 55,
            HljsLang::Llvm => 56,
            HljsLang::Lua => 57,
            HljsLang::Makefile => 58,
            HljsLang::Markdown => 59,
            HljsLang::Matlab => 60,
            HljsLang::Nginx => 61,
            HljsLang::Nim => 62,
            HljsLang::Nix => 63,
            HljsLang::Objectivec => 64,
            HljsLang::Ocaml => 65,
            HljsLang::Perl => 66,
            HljsLang::Pgsql => 67,
            HljsLang::Php => 68,
            HljsLang::Plaintext => 69,
            HljsLang::Powershell => 70,
            HljsLang::Prolog => 71,
            HljsLang::Properties => 72,
            HljsLang::Protobuf => 73,
            HljsLang::Puppet => 74,
            HljsLang::Python => 75,
            HljsLang::R => 76,
            HljsLang::Ruby => 77,
            HljsLang::Rust => 78,
            HljsLang::Scala => 79,
            HljsLang::Scss => 80,
            HljsLang::Shell => 81,
            HljsLang::Smalltalk => 82,
            HljsLang::Sql => 83,
            HljsLang::Swift => 84,
            HljsLang::Twig => 85,
            HljsLang::Typescript => 86,
            HljsLang::Vala => 87,
            HljsLang::Vbnet => 88,
            HljsLang::Verilog => 89,
            HljsLang::Vhdl => 90,
            HljsLang::Vim => 91,
            HljsLang::Wasm => 92,
            HljsLang::X86asm => 93,
            HljsLang::Xml => 94,
            HljsLang::Yaml => 95,
        }
    }

    /// Language standing at a position of the catalog order.
    pub open spec fn spec_lang_at(i: int) -> HljsLang {
        if i == 0 {
            HljsLang::Abnf
        } else if i == 1 {
            HljsLang::Accesslog
        } else if i == 2 {
            HljsLang::Actionscript
        } else if i == 3 {
            HljsLang::Ada
        } else if i == 4 {
            HljsLang::Apache
        } else if i == 5 {
            HljsLang::Applescript
        } else if i == 6 {
            HljsLang::Arduino
        } else if i == 7 {
            HljsLang::Armasm
        } else if i == 8 {
            HljsLang::Asciidoc
        } else if i == 9 {
            HljsLang::Autohotkey
        } else if i == 10 {
            HljsLang::Awk
        } else if i == 11 {
            HljsLang::Bash
        } else if i == 12 {
            HljsLang::Basic
        } else if i == 13 {
            HljsLang::Bnf
        } else if i == 14 {
            HljsLang::C
        } else if i == 15 {
            HljsLang::Clojure
        } else if i == 16 {
            HljsLang::Cmake
        } else if i == 17 {
            HljsLang::Coffeescript
        } else if i == 18 {
            HljsLang::Cpp
        } else if i == 19 {
            HljsLang::Crystal
        } else if i == 20 {
            HljsLang::Csharp
        } else if i == 21 {
            HljsLang::Css
        } else if i == 22 {
            HljsLang::D
        } else if i == 23 {
            HljsLang::Dart
        } else if i == 24 {
            HljsLang::Delphi
        } else if i == 25 {
            HljsLang::Diff
        } else if i == 26 {
            HljsLang::Django
        } else if i == 27 {
            HljsLang::Dns
        } else if i == 28 {
            HljsLang::Dockerfile
        } else if i == 29 {
            HljsLang::Dos
        } else if i == 30 {
            HljsLang::Ebnf
        } else if i == 31 {
            HljsLang::Elixir
        } else if i == 32 {
            HljsLang::Elm
        } else if i == 33 {
            HljsLang::Erlang
        } else if i == 34 {
            HljsLang::Excel
        } else if i == 35 {
            HljsLang::Fortran
        } else if i == 36 {
            HljsLang::Fsharp
        } else if i == 37 {
            HljsLang::Gherkin
        } else if i == 38 {
            HljsLang::Glsl
        } else if i == 39 {
            HljsLang::Go
        } else if i == 40 {
            HljsLang::Gradle
        } else if i == 41 {
            HljsLang::Graphql
        } else if i == 42 {
            HljsLang::Groovy
        } else if i == 43 {
            HljsLang::Haml
        } else if i == 44 {
            HljsLang::Handlebars
        } else if i == 45 {
            HljsLang::Haskell
        } else if i == 46 {
            HljsLang::Http
        } else if i == 47 {
            HljsLang::Ini
        } else if i == 48 {
            HljsLang::Java
        } else if i == 49 {
            HljsLang::Javascript
        } else if i == 50 {
            HljsLang::Json
        } else if i == 51 {
            HljsLang::Julia
        } else if i == 52 {
            HljsLang::Kotlin
        } else if i == 53 {
            HljsLang::Latex
        } else if i == 54 {
            HljsLang::Less
        } else if i == 55 {
            HljsLang::Lisp
        } else if i == 56 {
            HljsLang::Llvm
        } else if i == 57 {
            HljsLang::Lua
        } else if i == 58 {
            HljsLang::Makefile
        } else if i == 59 {
            HljsLang::Markdown
        } else if i == 60 {
            HljsLang::Matlab
        } else if i == 61 {
            HljsLang::Nginx
        } else if i == 62 {
            HljsLang::Nim
        } else if i == 63 {
            HljsLang::Nix
        } else if i == 64 {
            HljsLang::Objectivec
        } else if i == 65 {
            HljsLang::Ocaml
        } else if i == 66 {
            HljsLang::Perl
        } else if i == 67 {
            HljsLang::Pgsql
        } else if i == 68 {
            HljsLang::Php
        } else if i == 69 {
            HljsLang::Plaintext
        } else if i == 70 {
            HljsLang::Powershell
        } else if i == 71 {
            HljsLang::Prolog
        } else if i == 72 {
            HljsLang::Properties
        } else if i == 73 {
            HljsLang::Protobuf
        } else if i == 74 {
            HljsLang::Puppet
        } else if i == 75 {
            HljsLang::Python
        } else if i == 76 {
            HljsLang::R
        } else if i == 77 {
            HljsLang::Ruby
        } else if i == 78 {
            HljsLang::Rust
        } else if i == 79 {
            HljsLang::Scala
        } else if i == 80 {
            HljsLang::Scss
        } else if i == 81 {
            HljsLang::Shell
        } else if i == 82 {
            HljsLang::Smalltalk
        } else if i == 83 {
            HljsLang::Sql
        } else if i == 84 {
            HljsLang::Swift
        } else if i == 85 {
            HljsLang::Twig
        } else if i == 86 {
            HljsLang::Typescript
        } else if i == 87 {
            HljsLang::Vala
        } else if i == 88 {
            HljsLang::Vbnet
        } else if i == 89 {
            HljsLang::Verilog
        } else if i == 90 {
            HljsLang::Vhdl
        } else if i == 91 {
            HljsLang::Vim
        } else if i == 92 {
            HljsLang::Wasm
        } else if i == 93 {
            HljsLang::X86asm
        } else if i == 94 {
            HljsLang::Xml
        } else {
            HljsLang::Yaml
        }
    }

    /// Returns the language standing at a position of the catalog order.
    pub fn lang_at(i: usize) -> (r: HljsLang)
        requires
            i < NUM_LANGS,
        ensures
            r == HljsLang::spec_lang_at(i as int),
    {
        match i {
            0 => HljsLang::Abnf,
            1 => HljsLang::Accesslog,
            2 => HljsLang::Actionscript,
            3 => HljsLang::Ada,
            4 => HljsLang::Apache,
            5 => HljsLang::Applescript,
            6 => HljsLang::Arduino,
            7 => HljsLang::Armasm,
            8 => HljsLang::Asciidoc,
            9 => HljsLang::Autohotkey,
            10 => HljsLang::Awk,
            11 => HljsLang::Bash,
            12 => HljsLang::Basic,
            13 => HljsLang::Bnf,
            14 => HljsLang::C,
            15 => HljsLang::Clojure,
            16 => HljsLang::Cmake,
            17 => HljsLang::Coffeescript,
            18 => HljsLang::Cpp,
            19 => HljsLang::Crystal,
            20 => HljsLang::Csharp,
            21 => HljsLang::Css,
            22 => HljsLang::D,
            23 => HljsLang::Dart,
            24 => HljsLang::Delphi,
            25 => HljsLang::Diff,
            26 => HljsLang::Django,
            27 => HljsLang::Dns,
            28 => HljsLang::Dockerfile,
            29 => HljsLang::Dos,
            30 => HljsLang::Ebnf,
            31 => HljsLang::Elixir,
            32 => HljsLang::Elm,
            33 => HljsLang::Erlang,
            34 => HljsLang::Excel,
            35 => HljsLang::Fortran,
            36 => HljsLang::Fsharp,
            37 => HljsLang::Gherkin,
            38 => HljsLang::Glsl,
            39 => HljsLang::Go,
            40 => HljsLang::Gradle,
            41 => HljsLang::Graphql,
            42 => HljsLang::Groovy,
            43 => HljsLang::Haml,
            44 => HljsLang::Handlebars,
            45 => HljsLang::Haskell,
            46 => HljsLang::Http,
            47 => HljsLang::Ini,
            48 => HljsLang::Java,
            49 => HljsLang::Javascript,
            50 => HljsLang::Json,
            51 => HljsLang::Julia,
            52 => HljsLang::Kotlin,
            53 => HljsLang::Latex,
            54 => HljsLang::Less,
            55 => HljsLang::Lisp,
            56 => HljsLang::Llvm,
            57 => HljsLang::Lua,
            58 => HljsLang::Makefile,
            59 => HljsLang::Markdown,
            60 => HljsLang::Matlab,
            61 => HljsLang::Nginx,
            62 => HljsLang::Nim,
            63 => HljsLang::Nix,
            64 => HljsLang::Objectivec,
            65 => HljsLang::Ocaml,
            66 => HljsLang::Perl,
            67 => HljsLang::Pgsql,
            68 => HljsLang::Php,
            69 => HljsLang::Plaintext,
            70 => HljsLang::Powershell,
            71 => HljsLang::Prolog,
            72 => HljsLang::Properties,
            73 => HljsLang::Protobuf,
            74 => HljsLang::Puppet,
            75 => HljsLang::Python,
            76 => HljsLang::R,
            77 => HljsLang::Ruby,
            78 => HljsLang::Rust,
            79 => HljsLang::Scala,
            80 => HljsLang::Scss,
            81 => HljsLang::Shell,
            82 => HljsLang::Smalltalk,
            83 => HljsLang::Sql,
            84 => HljsLang::Swift,
            85 => HljsLang::Twig,
            86 => HljsLang::Typescript,
            87 => HljsLang::Vala,
            88 => HljsLang::Vbnet,
            89 => HljsLang::Verilog,
            90 => HljsLang::Vhdl,
            91 => HljsLang::Vim,
            92 => HljsLang::Wasm,
            93 => HljsLang::X86asm,
            94 => HljsLang::Xml,
            _ => HljsLang::Yaml,
        }
    }

    /// The catalog in its emission order.
    pub open spec fn spec_catalog() -> Seq<HljsLang> {
        Seq::new(NUM_LANGS as nat, |i: int| HljsLang::spec_lang_at(i))
    }

    /// Returns the whole catalog in its emission order.
    pub fn catalog() -> (r: Vec<HljsLang>)
        ensures
            r@ == HljsLang::spec_catalog(),
    {
        let mut v: Vec<HljsLang> = Vec::new();
        let mut i: usize = 0;
        while i < NUM_LANGS
            invariant
                i <= NUM_LANGS,
                v@ =~= HljsLang::spec_catalog().take(i as int),
            decreases NUM_LANGS - i,
        {
            v.push(HljsLang::lang_at(i));
            i += 1;
        }
        proof {
            assert(v@ =~= HljsLang::spec_catalog());
        }
        v
    }

    /// Every language stands at its own position of the catalog order.
    pub proof fn lemma_catalog_complete(l: HljsLang)
        ensures
            0 <= l.spec_index() < NUM_LANGS,
            HljsLang::spec_lang_at(l.spec_index()) == l,
            HljsLang::spec_catalog()[l.spec_index()] == l,
            HljsLang::spec_catalog().contains(l),
    {
        assert(HljsLang::spec_lang_at(l.spec_index()) == l);
        assert(HljsLang::spec_catalog()[l.spec_index()] == l);
    }

    /// Script path for this language.
    pub open spec fn spec_to_url(self) -> Seq<char> {
        "/hljs/js/lang/"@ + self.spec_name() + ".min.js"@
    }

    /// Builds the script path for this language.
    pub fn to_url(&self) -> (r: String)
        ensures
            r@ == self.spec_to_url(),
    {
        String::from_str("/hljs/js/lang/").concat(self.name()).concat(".min.js")
    }
}

impl Default for HljsLang {
    /// The default language tags a snippet that names none: plain text.
    fn default() -> (r: Self)
        ensures
            r == HljsLang::Plaintext,
    {
        HljsLang::Plaintext
    }
}

} // verus!

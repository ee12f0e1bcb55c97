//! The signature scanner: a fixed set of YARA signatures, compiled once and
//! matched against the contents of files.

use vstd::prelude::*;

verus! {

/// Signature for the EICAR anti-virus test file.
pub const EICAR_SIGNATURE: &'static str = r#"
            rule eicar_test_file {
                meta:
                    description = "EICAR Test File"
                    severity = "CRITICAL"
                strings:
                    $s1 = "X5O!P%@AP[4\\PZX54(P^)7CC)7}$EICAR-STANDARD-ANTIVIRUS-TEST-FILE!$H+H*"
                condition:
                    $s1
            }
            "#;

/// Signature for shell scripts that delete the file system or open a remote
/// shell.
pub const SHELL_SCRIPT_SIGNATURE: &'static str = r#"
            rule suspicious_shell_script {
                meta:
                    description = "Suspicious shell script indicators"
                    severity = "HIGH"
                strings:
                    $s1 = "/bin/bash"
                    $s2 = "rm -rf /"
                    $s3 = "nc -e"
                    $s4 = "mkfifo"
                condition:
                    $s1 and ($s2 or $s3 or $s4)
            }
            "#;

/// Signature for Python programs that look like a reverse shell.
pub const PYTHON_SHELL_SIGNATURE: &'static str = r#"
            rule python_reverse_shell {
                meta:
                    description = "Potential Python reverse shell"
                    severity = "CRITICAL"
                strings:
                    $s1 = "socket"
                    $s2 = "connect"
                    $s3 = "subprocess"
                    $s4 = "os.dup2"
                condition:
                    all of them
            }
            "#;

/// The built-in signatures, in the order in which they are compiled.
pub open spec fn builtin_signatures() -> Seq<Seq<char>> {
    seq![EICAR_SIGNATURE@, SHELL_SCRIPT_SIGNATURE@, PYTHON_SHELL_SIGNATURE@]
}

/// The compiled rules of the `yara_x` crate; opaque.
#[verifier::external_type_specification]
#[verifier::external_body]
pub struct ExRules(yara_x::Rules);

/// The rule compiler of the `yara_x` crate; opaque.
#[verifier::external_type_specification]
#[verifier::external_body]
pub struct ExCompiler<'a>(yara_x::Compiler<'a>);

/// The error that the compiler of the `yara_x` crate reports; opaque.
#[verifier::external_type_specification]
#[verifier::external_body]
pub struct ExCompileError(yara_x::errors::CompileError);

/// The sources that a compiler has accepted so far, in the order in which
/// they were added.
pub uninterp spec fn compiler_sources(compiler: yara_x::Compiler<'static>) -> Seq<Seq<char>>;

/// Whether a compiler that has accepted the sources `prior` accepts `source`
/// next: `source` is free of syntax and semantic errors in that context.
pub uninterp spec fn yara_accepts(prior: Seq<Seq<char>>, source: Seq<char>) -> bool;

/// The sources that a set of compiled rules was built from.
pub uninterp spec fn rules_sources(rules: yara_x::Rules) -> Seq<Seq<char>>;

/// The identifiers of the rules, among those compiled from `sources`, whose
/// condition holds of `data`.
pub uninterp spec fn yara_matching(sources: Seq<Seq<char>>, data: Seq<u8>) -> Set<Seq<char>>;

/// Calls `yara_x::Compiler::new`. Trusted: the new compiler holds no source.
#[verifier::external_body]
fn new_compiler() -> (compiler: yara_x::Compiler<'static>)
    ensures
        compiler_sources(compiler) == Seq::<Seq<char>>::empty(),
{
    yara_x::Compiler::new()
}

/// Calls `yara_x::Compiler::add_source` with one of the built-in signatures,
/// which include no file and import no module. Trusted: the call succeeds
/// exactly when the compiler accepts the source after those it already
/// holds, and the compiler then holds it as its last source. After an error
/// nothing is claimed of the compiler.
#[verifier::external_body]
fn add_source(compiler: &mut yara_x::Compiler<'static>, source: &str) -> (outcome: Result<
    (),
    yara_x::errors::CompileError,
>)
    requires
        builtin_signatures().contains(source@),
    ensures
        outcome is Ok <==> yara_accepts(compiler_sources(*old(compiler)), source@),
        outcome is Ok ==> compiler_sources(*final(compiler)) == compiler_sources(
            *old(compiler),
        ).push(source@),
{
    compiler.add_source(source).map(|_| ())
}

/// Calls `yara_x::Compiler::build`. Trusted: the rules are built from the
/// sources that the compiler holds.
#[verifier::external_body]
fn build_rules(compiler: yara_x::Compiler<'static>) -> (rules: yara_x::Rules)
    ensures
        rules_sources(rules) == compiler_sources(compiler),
{
    compiler.build()
}

/// Makes a `yara_x::Scanner` for rules built from the built-in signatures,
/// calls its `scan` on the data and collects `identifier` of each of
/// `matching_rules`.
///
/// Trusted: the scan succeeds, no identifier comes twice, and the
/// identifiers are, as a set, those of the rules that match the data; their
/// order is the scanner's own. A scan of data in memory with rules that
/// import no module has one way to fail, a deadline. No timeout is set on
/// the scanner made here, and the deadline is then ten years after the start
/// of the scan. Each matching rule is handed out once, and the compiler
/// accepts no two rules of one name. `None` stands for a scan that failed.
#[verifier::external_body]
fn scan_bytes(rules: &yara_x::Rules, data: &[u8]) -> (report: Option<Vec<String>>)
    requires
        rules_sources(*rules) == builtin_signatures(),
    ensures
        report is Some,
        report matches Some(names) ==> names.deep_view().no_duplicates(),
        report matches Some(names) ==> names.deep_view().to_set() == yara_matching(
            rules_sources(*rules),
            data@,
        ),
{
    let mut scanner = yara_x::Scanner::new(rules);
    match scanner.scan(data) {
        Ok(results) => Some(
            results.matching_rules().map(|rule| rule.identifier().to_string()).collect(),
        ),
        Err(_) => None,
    }
}

/// The signature whose compilation failed.
#[derive(Debug, Clone, Copy, PartialEq, Eq, Structural, Hash)]
pub enum ScannerError {
    EicarRule,
    ShellScriptRule,
    PythonRule,
}

impl ScannerError {
    /// A sentence that says which signature could not be added.
    pub fn message(self) -> (text: String)
        ensures
            text@ == match self {
                ScannerError::EicarRule => "Failed to add EICAR rule"@,
                ScannerError::ShellScriptRule => "Failed to add shell script rule"@,
                ScannerError::PythonRule => "Failed to add python rule"@,
            },
    {
        match self {
            ScannerError::EicarRule => "Failed to add EICAR rule".to_owned(),
            ScannerError::ShellScriptRule => "Failed to add shell script rule".to_owned(),
            ScannerError::PythonRule => "Failed to add python rule".to_owned(),
        }
    }
}

/// What compiling the built-in signatures one after the other gives: the
/// first signature that the compiler refuses, if there is one.
pub open spec fn builtin_compilation() -> Option<ScannerError> {
    if !yara_accepts(Seq::empty(), EICAR_SIGNATURE@) {
        Some(ScannerError::EicarRule)
    } else if !yara_accepts(seq![EICAR_SIGNATURE@], SHELL_SCRIPT_SIGNATURE@) {
        Some(ScannerError::ShellScriptRule)
    } else if !yara_accepts(
        seq![EICAR_SIGNATURE@, SHELL_SCRIPT_SIGNATURE@],
        PYTHON_SHELL_SIGNATURE@,
    ) {
        Some(ScannerError::PythonRule)
    } else {
        None
    }
}

/// The matches that a scan report stands for: a failed scan matches nothing.
pub open spec fn reported_matches(report: Option<Vec<String>>) -> Seq<Seq<char>> {
    match report {
        Some(names) => names.deep_view(),
        None => Seq::empty(),
    }
}

/// Turns a scan report into the list of matched signatures; a failed scan
/// counts as no match.
pub fn matches_of_report(report: Option<Vec<String>>) -> (matches: Vec<String>)
    ensures
        matches.deep_view() == reported_matches(report),
{
    match report {
        Some(names) => names,
        None => {
            let matches: Vec<String> = Vec::new();
            assert(matches.deep_view() =~= Seq::<Seq<char>>::empty());
            matches
        },
    }
}

/// A scanner that holds the compiled built-in signatures.
pub struct YaraScanner {
    rules: yara_x::Rules,
}

impl YaraScanner {
    /// The rules are those of the built-in signatures.
    #[verifier::type_invariant]
    spec fn holds_builtin_signatures(self) -> bool {
        rules_sources(self.rules) == builtin_signatures()
    }

    /// Compiles the built-in signatures. Fails with the first signature that
    /// the compiler refuses.
    pub fn new() -> (scanner: Result<YaraScanner, ScannerError>)
        ensures
            match scanner {
                Ok(_) => builtin_compilation() is None,
                Err(error) => builtin_compilation() == Some(error),
            },
    {
        let mut compiler = new_compiler();
        assert(builtin_signatures()[0] == EICAR_SIGNATURE@);
        assert(builtin_signatures()[1] == SHELL_SCRIPT_SIGNATURE@);
        assert(builtin_signatures()[2] == PYTHON_SHELL_SIGNATURE@);
        if add_source(&mut compiler, EICAR_SIGNATURE).is_err() {
            return Err(ScannerError::EicarRule);
        }
        assert(compiler_sources(compiler) =~= seq![EICAR_SIGNATURE@]);
        if add_source(&mut compiler, SHELL_SCRIPT_SIGNATURE).is_err() {
            return Err(ScannerError::ShellScriptRule);
        }
        assert(compiler_sources(compiler) =~= seq![EICAR_SIGNATURE@, SHELL_SCRIPT_SIGNATURE@]);
        if add_source(&mut compiler, PYTHON_SHELL_SIGNATURE).is_err() {
            return Err(ScannerError::PythonRule);
        }
        assert(compiler_sources(compiler) =~= builtin_signatures());
        let rules = build_rules(compiler);
        Ok(YaraScanner { rules })
    }

    /// Scans the contents of a file and returns the identifiers of the
    /// built-in signatures that match, each once, in the scanner's order.
    pub fn scan_file(&self, data: &[u8]) -> (matches: Vec<String>)
        ensures
            matches.deep_view().no_duplicates(),
            matches.deep_view().to_set() == yara_matching(builtin_signatures(), data@),
    {
        proof {
            use_type_invariant(self);
        }
        let report = scan_bytes(&self.rules, data);
        matches_of_report(report)
    }
}

} // verus!

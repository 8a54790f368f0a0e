//! The code-generation stub: turns a description into a commented stub
//! body and runs a simulated security check over it.

use vstd::prelude::*;

use crate::strutil::{contains_seq, contains_str};

verus! {

/// The stub engine; it holds no state.
#[derive(Debug, Clone, Copy, Default)]
pub struct AutonomousCoderEngine;

/// What a caller asks the engine to generate.
#[derive(Debug)]
pub struct CodeSpec {
    pub description: String,
    pub auto_mode: bool,
}

/// A generated stub and the verdicts of its simulated checks.
#[derive(Debug)]
pub struct GeneratedCode {
    pub id: u64,
    pub code: String,
    pub tests_passed: bool,
    pub security_passed: bool,
}

/// The request envelope around a [`CodeSpec`].
#[derive(Debug)]
pub struct GenerateCodeRequest {
    pub code_spec: CodeSpec,
}

/// The stub body the engine writes for a description.
pub open spec fn generated_body_of(description: Seq<char>) -> Seq<char> {
    "// Code stub\n// "@ + description + "\n"@
}

/// The security screening: the body holds no destructive phrase.
pub open spec fn security_check_of(code: Seq<char>) -> bool {
    !contains_seq(code, "rm -rf"@) && !contains_seq(code, "drop database"@)
}

impl AutonomousCoderEngine {
    /// Generates the stub for a description under the caller-drawn `id`:
    /// the commented body, a vacuously passing test verdict, and the
    /// security verdict — which is only ever granted in auto mode.
    pub fn generate(&self, request: CodeSpec, id: u64) -> (r: GeneratedCode)
        ensures
            r.id == id,
            r.code@ == generated_body_of(request.description@),
            r.tests_passed == true,
            r.security_passed == (request.auto_mode && security_check_of(
                generated_body_of(request.description@),
            )),
    {
        let mut code = String::from_str("// Code stub\n// ");
        code.append(request.description.as_str());
        code.append("\n");
        let security_ok = !contains_str(code.as_str(), "rm -rf") && !contains_str(
            code.as_str(),
            "drop database",
        );
        let security_passed = if request.auto_mode {
            security_ok
        } else {
            false
        };
        GeneratedCode { id, code, tests_passed: true, security_passed }
    }
}

} // verus!

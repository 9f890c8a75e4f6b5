//! What gets uploaded for a network class.
use vstd::prelude::*;
use crate::error::DeployError;

verus! {

/// Persistent networks store bytecode; simulation networks run the contract
/// in process.
#[derive(Clone, Copy, Debug, PartialEq, Eq)]
pub enum NetworkClass {
    Persistent,
    Simulation,
}

/// The entry points an in-process bundle carries.
#[derive(Clone, Copy, Debug, PartialEq, Eq)]
pub struct EntryPoints {
    pub execute: bool,
    pub instantiate: bool,
    pub query: bool,
    pub migrate: bool,
}

/// A deployable artifact: a path to compiled bytecode, or an in-process stub.
#[derive(Clone, Debug, PartialEq, Eq)]
pub enum Artifact {
    WasmPath(String),
    Stub(EntryPoints),
}

/// The compiled contract, relative to the artifacts root.
pub open spec fn wasm_file_spec() -> Seq<char> {
    "artifacts/cw20_base.wasm"@
}

/// The path of the compiled contract under a root directory.
pub open spec fn wasm_path_spec(root: Seq<char>) -> Seq<char> {
    root + seq!['/'] + wasm_file_spec()
}

/// The bundle of a simulation: every entry point of the token contract.
pub open spec fn full_stub() -> EntryPoints {
    EntryPoints { execute: true, instantiate: true, query: true, migrate: true }
}

/// Joins the root directory and the file of the compiled contract.
pub fn wasm_path(root: &str) -> (r: String)
    ensures
        r@ == wasm_path_spec(root@),
{
    proof {
        reveal_strlit("/");
    }
    let s = String::from_str(root).concat("/");
    let r = s.concat("artifacts/cw20_base.wasm");
    assert(r@ =~= wasm_path_spec(root@));
    r
}

/// Resolves the artifact for a network class: exactly one representation for
/// each class, a path for a persistent network and a stub for a simulation.
pub fn resolve_artifact(class: NetworkClass, root: &str) -> (r: Artifact)
    ensures
        r is WasmPath <==> class is Persistent,
        r is Stub <==> class is Simulation,
        class is Persistent ==> r->WasmPath_0@ == wasm_path_spec(root@),
        class is Simulation ==> r->Stub_0 == full_stub(),
{
    match class {
        NetworkClass::Persistent => Artifact::WasmPath(wasm_path(root)),
        NetworkClass::Simulation => Artifact::Stub(
            EntryPoints { execute: true, instantiate: true, query: true, migrate: true },
        ),
    }
}

/// Accepts a resolved artifact once the file behind a path has been checked:
/// a path whose check failed is a resolution error carrying the check's
/// message; a stub needs no file and is accepted as it is.
pub fn confirm_artifact(artifact: Artifact, check: Result<(), String>) -> (r: Result<Artifact, DeployError>)
    ensures
        match artifact {
            Artifact::WasmPath(_) => match check {
                Ok(_) => r == Ok::<Artifact, DeployError>(artifact),
                Err(m) => r == Err::<Artifact, DeployError>(DeployError::Resolution(m)),
            },
            Artifact::Stub(_) => r == Ok::<Artifact, DeployError>(artifact),
        },
{
    match artifact {
        Artifact::WasmPath(p) => match check {
            Ok(_) => Ok(Artifact::WasmPath(p)),
            Err(m) => Err(DeployError::Resolution(m)),
        },
        Artifact::Stub(e) => Ok(Artifact::Stub(e)),
    }
}

} // verus!

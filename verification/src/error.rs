use vstd::prelude::*;

verus! {

/// Why an operation of a facade was not carried out.
#[derive(Debug, Clone, Copy, PartialEq, Eq, Structural)]
pub enum Error {
    /// A non-owning facade was used after every owner of its handle had gone.
    WebviewNull,
    /// The backend has no such operation.
    Unsupported,
    /// A string bound for the engine holds a NUL character, which would end
    /// it early on the engine's side.
    Encoding,
}

} // verus!

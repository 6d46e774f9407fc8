//! Global identity of a module: an account address paired with a module
//! name.  These are plain value types; the surrounding pools refer to them
//! by position.

use vstd::prelude::*;

verus! {

/// A global account address: a fixed-width byte string.
#[derive(Clone, Copy, PartialEq, Eq, Debug)]
pub struct AccountAddress {
    pub bytes: [u8; 32],
}

impl View for AccountAddress {
    type V = Seq<u8>;

    open spec fn view(&self) -> Seq<u8> {
        self.bytes@
    }
}

/// The name of a module or of a struct: an owned identifier string.
#[derive(PartialEq, Eq, Debug)]
pub struct Identifier {
    pub name: String,
}

impl View for Identifier {
    type V = Seq<char>;

    open spec fn view(&self) -> Seq<char> {
        self.name@
    }
}

impl Clone for Identifier {
    fn clone(&self) -> (r: Self)
        ensures
            r == *self,
    {
        Identifier { name: self.name.clone() }
    }
}

impl Identifier {
    /// Whether two identifiers spell the same name.
    pub fn eq_name(&self, other: &Identifier) -> (r: bool)
        ensures
            r == (self@ == other@),
    {
        self.name == other.name
    }
}

/// The mathematical value of a `ModuleId`: the address bytes and the name
/// characters, free of representation detail.
#[verifier::ext_equal]
pub struct ModuleIdView {
    pub address: Seq<u8>,
    pub name: Seq<char>,
}

/// The (address, name) pair identifying a module globally.
#[derive(PartialEq, Eq, Debug)]
pub struct ModuleId {
    pub address: AccountAddress,
    pub name: Identifier,
}

impl View for ModuleId {
    type V = ModuleIdView;

    open spec fn view(&self) -> ModuleIdView {
        ModuleIdView { address: self.address@, name: self.name@ }
    }
}

impl Clone for ModuleId {
    fn clone(&self) -> (r: Self)
        ensures
            r == *self,
    {
        ModuleId { address: self.address, name: self.name.clone() }
    }
}

impl ModuleId {
    pub fn new(address: AccountAddress, name: Identifier) -> (r: ModuleId)
        ensures
            r@ == (ModuleIdView { address: address@, name: name@ }),
    {
        ModuleId { address, name }
    }
}

} // verus!

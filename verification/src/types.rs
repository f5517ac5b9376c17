//! The four families of contract, the fixed facts of each, and the contract
//! record that is handed to rendering.

use vstd::prelude::*;

verus! {

/// The family a generated contract belongs to.
///
/// Handlers and properties come as a set of lettered leaves plus one
/// aggregator; the entry point and the setup contract exist once each.
#[derive(Debug, Clone, Copy, PartialEq, Eq, Structural)]
pub enum ContractType {
    Handler,
    Property,
    EntryPoint,
    Setup,
}

/// The base name of a family, from which every identifier in it is formed.
pub open spec fn stem(t: ContractType) -> Seq<char> {
    match t {
        ContractType::Handler => "Handler"@,
        ContractType::Property => "Property"@,
        ContractType::EntryPoint => "FuzzTest"@,
        ContractType::Setup => "Setup"@,
    }
}

/// The directory, below the output root, that holds a family's files.
/// Empty for the two families that are written beside the root.
pub open spec fn directory(t: ContractType) -> Seq<char> {
    match t {
        ContractType::Handler => "handlers"@,
        ContractType::Property => "properties"@,
        ContractType::EntryPoint => Seq::empty(),
        ContractType::Setup => Seq::empty(),
    }
}

/// The identifier of the aggregator of a family: the stem followed by `Parent`.
pub open spec fn aggregator_name(t: ContractType) -> Seq<char> {
    stem(t) + "Parent"@
}

/// The identifier that every contract of a family builds on: handlers on the
/// setup contract, properties on the handlers' aggregator, the entry point
/// on the properties' aggregator, the setup contract on nothing.
pub open spec fn required_import_name(t: ContractType) -> Seq<char> {
    match t {
        ContractType::Handler => stem(ContractType::Setup),
        ContractType::Property => aggregator_name(ContractType::Handler),
        ContractType::EntryPoint => aggregator_name(ContractType::Property),
        ContractType::Setup => Seq::empty(),
    }
}

/// The path, relative to a family's own directory, of the directory that holds
/// the contract it builds on.
pub open spec fn required_import_dir(t: ContractType) -> Seq<char> {
    match t {
        ContractType::Handler => "../"@,
        ContractType::Property => "../"@ + directory(ContractType::Handler) + "/"@,
        ContractType::EntryPoint => "./"@ + directory(ContractType::Property) + "/"@,
        ContractType::Setup => Seq::empty(),
    }
}

/// The import statement that every contract of a family carries. It names the
/// required identifier twice: once as the symbol, once as the file.
pub open spec fn required_import(t: ContractType) -> Seq<char> {
    if t == ContractType::Setup {
        Seq::empty()
    } else {
        "import {"@ + required_import_name(t) + "} from '"@ + required_import_dir(t)
            + required_import_name(t) + ".t.sol';"@
    }
}

impl ContractType {
    /// The directory, below the output root, that holds the family's files.
    pub fn directory_name(&self) -> (r: String)
        ensures
            r@ == directory(*self),
    {
        match self {
            ContractType::Handler => "handlers".to_string(),
            ContractType::Property => "properties".to_string(),
            _ => String::new(),
        }
    }

    /// The base name of the family.
    pub fn name(&self) -> (r: String)
        ensures
            r@ == stem(*self),
    {
        match self {
            ContractType::Handler => "Handler".to_string(),
            ContractType::Property => "Property".to_string(),
            ContractType::EntryPoint => "FuzzTest".to_string(),
            ContractType::Setup => "Setup".to_string(),
        }
    }

    /// The identifier of the family's aggregator.
    pub fn parent_name(&self) -> (r: String)
        ensures
            r@ == aggregator_name(*self),
    {
        let mut r = self.name();
        r.append("Parent");
        r
    }

    /// The import statement that every contract of the family carries.
    pub fn import(&self) -> (r: String)
        ensures
            r@ == required_import(*self),
    {
        let name = self.import_name();
        let mut r = String::new();
        match self {
            ContractType::Setup => {},
            _ => {
                r.append("import {");
                r.append(name.as_str());
                r.append("} from '");
                match self {
                    ContractType::Handler => {
                        r.append("../");
                    },
                    ContractType::Property => {
                        r.append("../");
                        r.append(ContractType::Handler.directory_name().as_str());
                        r.append("/");
                    },
                    _ => {
                        r.append("./");
                        r.append(ContractType::Property.directory_name().as_str());
                        r.append("/");
                    },
                }
                r.append(name.as_str());
                r.append(".t.sol';");
            },
        }
        r
    }

    /// The identifier that every contract of the family builds on.
    pub fn import_name(&self) -> (r: String)
        ensures
            r@ == required_import_name(*self),
    {
        match self {
            ContractType::Handler => ContractType::Setup.name(),
            ContractType::Property => ContractType::Handler.parent_name(),
            ContractType::EntryPoint => ContractType::Property.parent_name(),
            ContractType::Setup => String::new(),
        }
    }
}

/// What a contract is, as plain text: the five values that rendering substitutes.
pub struct ContractView {
    pub licence: Seq<char>,
    pub solc: Seq<char>,
    pub imports: Seq<char>,
    pub name: Seq<char>,
    pub parents: Seq<char>,
}

/// One generated contract, fully resolved and ready to be rendered.
#[derive(Debug, Clone, PartialEq)]
pub struct Contract {
    pub licence: String,
    pub solc: String,
    pub imports: String,
    pub name: String,
    pub parents: String,
}

impl View for Contract {
    type V = ContractView;

    open spec fn view(&self) -> ContractView {
        ContractView {
            licence: self.licence@,
            solc: self.solc@,
            imports: self.imports@,
            name: self.name@,
            parents: self.parents@,
        }
    }
}

/// The licence that a contract carries unless another is given.
pub open spec fn default_licence() -> Seq<char> {
    "MIT"@
}

/// The compiler version that a contract asks for unless another is given.
pub open spec fn default_solc() -> Seq<char> {
    "^0.8.0"@
}

/// A contract of a family as the builder first fills it in: the defaults, the
/// family's stem as its name, and the family's required import.
pub open spec fn typed_contract(t: ContractType) -> ContractView {
    ContractView {
        licence: default_licence(),
        solc: default_solc(),
        imports: required_import(t),
        name: stem(t),
        parents: required_import_name(t),
    }
}

/// Collects the five values of a contract one at a time.
pub struct ContractBuilder {
    licence: String,
    solc: String,
    imports: String,
    name: String,
    parents: String,
}

impl View for ContractBuilder {
    type V = ContractView;

    closed spec fn view(&self) -> ContractView {
        ContractView {
            licence: self.licence@,
            solc: self.solc@,
            imports: self.imports@,
            name: self.name@,
            parents: self.parents@,
        }
    }
}

impl Default for ContractBuilder {
    /// A builder with every value empty.
    fn default() -> (r: ContractBuilder)
        ensures
            r@ == (ContractView {
                licence: Seq::empty(),
                solc: Seq::empty(),
                imports: Seq::empty(),
                name: Seq::empty(),
                parents: Seq::empty(),
            }),
    {
        ContractBuilder {
            licence: String::new(),
            solc: String::new(),
            imports: String::new(),
            name: String::new(),
            parents: String::new(),
        }
    }
}

impl ContractBuilder {
    /// A builder that holds the default licence and compiler version and
    /// nothing else.
    pub fn new() -> (r: ContractBuilder)
        ensures
            r@ == (ContractView {
                licence: default_licence(),
                solc: default_solc(),
                imports: Seq::empty(),
                name: Seq::empty(),
                parents: Seq::empty(),
            }),
    {
        ContractBuilder {
            licence: "MIT".to_string(),
            solc: "^0.8.0".to_string(),
            imports: String::new(),
            name: String::new(),
            parents: String::new(),
        }
    }

    /// Replaces the licence.
    pub fn with_licence(self, licence: String) -> (r: Self)
        ensures
            r@ == (ContractView { licence: licence@, ..self@ }),
    {
        ContractBuilder { licence, ..self }
    }

    /// Replaces the compiler version.
    pub fn with_solc(self, solc: String) -> (r: Self)
        ensures
            r@ == (ContractView { solc: solc@, ..self@ }),
    {
        ContractBuilder { solc, ..self }
    }

    /// Replaces the import statements.
    pub fn with_imports(self, imports: String) -> (r: Self)
        ensures
            r@ == (ContractView { imports: imports@, ..self@ }),
    {
        ContractBuilder { imports, ..self }
    }

    /// Replaces the identifier.
    pub fn with_name(self, name: String) -> (r: Self)
        ensures
            r@ == (ContractView { name: name@, ..self@ }),
    {
        ContractBuilder { name, ..self }
    }

    /// Replaces the list of parents.
    pub fn with_parents(self, parents: String) -> (r: Self)
        ensures
            r@ == (ContractView { parents: parents@, ..self@ }),
    {
        ContractBuilder { parents, ..self }
    }

    /// Fills in what the family fixes: its stem as the identifier, its
    /// required import, and the required identifier as the only parent.
    /// Licence and compiler version stay as they are.
    pub fn with_type(self, contract_type: &ContractType) -> (r: Self)
        ensures
            r@ == (ContractView {
                imports: required_import(*contract_type),
                name: stem(*contract_type),
                parents: required_import_name(*contract_type),
                ..self@
            }),
    {
        ContractBuilder {
            imports: contract_type.import(),
            name: contract_type.name(),
            parents: contract_type.import_name(),
            ..self
        }
    }

    /// The contract that holds exactly what the builder has collected.
    pub fn build(self) -> (r: Contract)
        ensures
            r@ == self@,
    {
        Contract {
            licence: self.licence,
            solc: self.solc,
            imports: self.imports,
            name: self.name,
            parents: self.parents,
        }
    }
}

} // verus!

//! The contracts of one campaign: the leaves of each family, their
//! aggregators, the entry point and the setup contract.

use crate::cli::Args;
use crate::error::GenError;
use crate::naming::{leaf_name, leaf_name_of, MAX_LEAVES};
use crate::resolver::{import_block, names_of, parent_list, parse_child_imports, parse_parents};
use crate::types::{
    aggregator_name, typed_contract, Contract, ContractBuilder, ContractType, ContractView,
};
use vstd::prelude::*;

verus! {

/// What each of a sequence of contracts is, in the same order.
pub open spec fn views_of(contracts: Seq<Contract>) -> Seq<ContractView> {
    contracts.map_values(|c: Contract| c@)
}

/// The leaf at a position in its family: what the family fixes, under the
/// leaf's own identifier.
pub open spec fn leaf(t: ContractType, ordinal: int) -> ContractView {
    ContractView { name: leaf_name(t, ordinal), ..typed_contract(t) }
}

/// The first `count` leaves of a family, lettered from `A` on without a gap.
pub open spec fn leaves(t: ContractType, count: nat) -> Seq<ContractView> {
    Seq::new(count, |i: int| leaf(t, i))
}

/// The identifiers of the first `count` leaves of a family.
pub open spec fn leaf_names(t: ContractType, count: nat) -> Seq<Seq<char>> {
    Seq::new(count, |i: int| leaf_name(t, i))
}

/// The aggregator of a family over leaves with the given identifiers: it
/// imports each of them and lists each of them as a parent.
pub open spec fn aggregator(t: ContractType, names: Seq<Seq<char>>) -> ContractView {
    ContractView {
        imports: import_block(names),
        name: aggregator_name(t),
        parents: parent_list(names),
        ..typed_contract(t)
    }
}

/// How many leaves the arguments ask of a family, where the family has leaves.
pub open spec fn requested(t: ContractType, args: Args) -> Option<u8> {
    match t {
        ContractType::Handler => Some(args.nb_handlers),
        ContractType::Property => Some(args.nb_properties),
        ContractType::EntryPoint => None,
        ContractType::Setup => None,
    }
}

/// The first `count` leaves of a family, in the order of their letters.
///
/// Refused with `OrdinalOutOfRange` exactly when `count` is more than there
/// are letters.
pub fn create_contracts(contract_type: &ContractType, count: u8) -> (r: Result<
    Vec<Contract>,
    GenError,
>)
    ensures
        count <= MAX_LEAVES <==> r is Ok,
        r matches Ok(v) ==> views_of(v@) == leaves(*contract_type, count as nat),
        r matches Ok(v) ==> names_of(v@) == leaf_names(*contract_type, count as nat),
        r matches Err(e) ==> e == GenError::OrdinalOutOfRange,
{
    if count > MAX_LEAVES {
        return Err(GenError::OrdinalOutOfRange);
    }
    let mut contracts: Vec<Contract> = Vec::new();
    let mut i: u8 = 0;
    while i < count
        invariant
            i <= count <= MAX_LEAVES,
            views_of(contracts@) == leaves(*contract_type, i as nat),
        decreases count - i,
    {
        let name = match leaf_name_of(contract_type, i) {
            Ok(name) => name,
            Err(e) => {
                return Err(e);
            },
        };
        let contract = ContractBuilder::new().with_type(contract_type).with_name(name).build();
        let ghost before = contracts@;
        contracts.push(contract);
        proof {
            assert(views_of(contracts@) == views_of(before).push(contract@));
            assert(leaves(*contract_type, (i + 1) as nat) == leaves(*contract_type, i as nat).push(
                leaf(*contract_type, i as int),
            ));
        }
        i += 1;
    }
    proof {
        lemma_names_of_leaves(contracts@, *contract_type, count as nat);
    }
    Ok(contracts)
}

/// The leaves that the arguments ask of a family.
///
/// Refused with `InvalidFamilyForLeafGeneration` exactly when the family is
/// the entry point or the setup contract, which have no leaves; otherwise
/// with `OrdinalOutOfRange` exactly when more leaves are asked for than
/// there are letters.
pub fn generate_parents(contract_type: ContractType, args: &Args) -> (r: Result<
    Vec<Contract>,
    GenError,
>)
    ensures
        match requested(contract_type, *args) {
            None => r == Err::<Vec<Contract>, GenError>(GenError::InvalidFamilyForLeafGeneration),
            Some(count) => if count <= MAX_LEAVES {
                r matches Ok(v) && views_of(v@) == leaves(contract_type, count as nat)
            } else {
                r == Err::<Vec<Contract>, GenError>(GenError::OrdinalOutOfRange)
            },
        },
{
    let count = match contract_type {
        ContractType::Handler => args.nb_handlers,
        ContractType::Property => args.nb_properties,
        _ => {
            return Err(GenError::InvalidFamilyForLeafGeneration);
        },
    };
    create_contracts(&contract_type, count)
}

/// The aggregator of a family over the given leaves.
pub fn generate_child(contract_type: &ContractType, parents: &[Contract]) -> (r: Contract)
    ensures
        r@ == aggregator(*contract_type, names_of(parents@)),
{
    ContractBuilder::new().with_type(contract_type).with_name(
        contract_type.parent_name(),
    ).with_imports(parse_child_imports(parents)).with_parents(parse_parents(parents)).build()
}

/// Every contract of one campaign.
#[derive(Debug, Clone, PartialEq)]
pub struct TestSuite {
    pub handlers: Vec<Contract>,
    pub handlers_parent: Contract,
    pub properties: Vec<Contract>,
    pub properties_parent: Contract,
    pub entry_point: Contract,
    pub setup: Contract,
}

/// What the contracts of a campaign are, as plain text.
pub struct TestSuiteView {
    pub handlers: Seq<ContractView>,
    pub handlers_parent: ContractView,
    pub properties: Seq<ContractView>,
    pub properties_parent: ContractView,
    pub entry_point: ContractView,
    pub setup: ContractView,
}

impl View for TestSuite {
    type V = TestSuiteView;

    open spec fn view(&self) -> TestSuiteView {
        TestSuiteView {
            handlers: views_of(self.handlers@),
            handlers_parent: self.handlers_parent@,
            properties: views_of(self.properties@),
            properties_parent: self.properties_parent@,
            entry_point: self.entry_point@,
            setup: self.setup@,
        }
    }
}

/// The campaign with the given numbers of handlers and properties.
pub open spec fn suite_of(nb_handlers: nat, nb_properties: nat) -> TestSuiteView {
    TestSuiteView {
        handlers: leaves(ContractType::Handler, nb_handlers),
        handlers_parent: aggregator(
            ContractType::Handler,
            leaf_names(ContractType::Handler, nb_handlers),
        ),
        properties: leaves(ContractType::Property, nb_properties),
        properties_parent: aggregator(
            ContractType::Property,
            leaf_names(ContractType::Property, nb_properties),
        ),
        entry_point: typed_contract(ContractType::EntryPoint),
        setup: typed_contract(ContractType::Setup),
    }
}

/// What a run on the given arguments comes to: the campaign with the numbers
/// of handlers and properties asked for, or a refusal where one of them is
/// more than there are letters.
pub open spec fn expected_suite(args: Args) -> Result<TestSuiteView, GenError> {
    if args.nb_handlers <= MAX_LEAVES && args.nb_properties <= MAX_LEAVES {
        Ok(suite_of(args.nb_handlers as nat, args.nb_properties as nat))
    } else {
        Err(GenError::OrdinalOutOfRange)
    }
}

/// What a run came to, as plain text.
pub open spec fn outcome(r: Result<TestSuite, GenError>) -> Result<TestSuiteView, GenError> {
    match r {
        Ok(suite) => Ok(suite@),
        Err(e) => Err(e),
    }
}

/// The identifiers of the leaves of a family are those of their positions.
pub proof fn lemma_names_of_leaves(contracts: Seq<Contract>, t: ContractType, count: nat)
    requires
        views_of(contracts) == leaves(t, count),
    ensures
        names_of(contracts) == leaf_names(t, count),
{
    assert(views_of(contracts).len() == contracts.len());
    assert(leaves(t, count).len() == count);
    assert forall|i: int| 0 <= i < count implies names_of(contracts)[i] == leaf_names(t, count)[i] by {
        assert(views_of(contracts)[i] == contracts[i]@);
        assert(leaves(t, count)[i] == leaf(t, i));
    }
}

/// Every contract of the campaign that the arguments ask for. Names are
/// assigned here, before anything is written anywhere.
///
/// Refused with `OrdinalOutOfRange` exactly when more handlers or more
/// properties are asked for than there are letters.
pub fn generate_test_suite(args: &Args) -> (r: Result<TestSuite, GenError>)
    ensures
        outcome(r) == expected_suite(*args),
{
    let handlers = match generate_parents(ContractType::Handler, args) {
        Ok(v) => v,
        Err(e) => {
            return Err(e);
        },
    };
    proof {
        lemma_names_of_leaves(handlers@, ContractType::Handler, args.nb_handlers as nat);
    }
    let handlers_parent = generate_child(&ContractType::Handler, handlers.as_slice());

    let properties = match generate_parents(ContractType::Property, args) {
        Ok(v) => v,
        Err(e) => {
            return Err(e);
        },
    };
    proof {
        lemma_names_of_leaves(properties@, ContractType::Property, args.nb_properties as nat);
    }
    let properties_parent = generate_child(&ContractType::Property, properties.as_slice());

    let entry_point = ContractBuilder::new().with_type(&ContractType::EntryPoint).build();
    let setup = ContractBuilder::new().with_type(&ContractType::Setup).build();

    Ok(TestSuite { handlers, handlers_parent, properties, properties_parent, entry_point, setup })
}

} // verus!

//! Where each contract is written, and what to do with an output directory
//! that is already there.

use crate::error::GenError;
use crate::suite::{views_of, TestSuite, TestSuiteView};
use crate::types::{directory, Contract, ContractType, ContractView};
use vstd::prelude::*;

verus! {

/// The name of the file that holds the contract with the given identifier.
pub open spec fn file_name(name: Seq<char>) -> Seq<char> {
    name + ".t.sol"@
}

/// The path, relative to the output root, of the file that holds a contract
/// of a family: inside the family's directory where it has one, beside the
/// root otherwise.
pub open spec fn output_path(t: ContractType, name: Seq<char>) -> Seq<char> {
    match t {
        ContractType::Handler => directory(t) + "/"@ + file_name(name),
        ContractType::Property => directory(t) + "/"@ + file_name(name),
        ContractType::EntryPoint => file_name(name),
        ContractType::Setup => file_name(name),
    }
}

/// The paths of the files of one family, in the order of its contracts.
pub open spec fn family_paths(t: ContractType, contracts: Seq<ContractView>) -> Seq<Seq<char>> {
    contracts.map_values(|c: ContractView| output_path(t, c.name))
}

/// The paths of all files of a campaign, in the order in which they are
/// written: each family's leaves and then its aggregator, handlers before
/// properties, then the entry point and the setup contract.
pub open spec fn suite_paths(suite: TestSuiteView) -> Seq<Seq<char>> {
    family_paths(ContractType::Handler, suite.handlers.push(suite.handlers_parent)) + family_paths(
        ContractType::Property,
        suite.properties.push(suite.properties_parent),
    ) + seq![
        output_path(ContractType::EntryPoint, suite.entry_point.name),
        output_path(ContractType::Setup, suite.setup.name),
    ]
}

/// The text of each of a sequence of strings, in the same order.
pub open spec fn texts_of(strings: Seq<String>) -> Seq<Seq<char>> {
    strings.map_values(|s: String| s@)
}

impl Contract {
    /// The name of the file that holds the contract.
    pub fn file_name(&self) -> (r: String)
        ensures
            r@ == file_name(self.name@),
    {
        let mut r = self.name.clone();
        r.append(".t.sol");
        r
    }
}

/// The path, relative to the output root, of the file that holds a contract
/// of a family.
pub fn contract_path(contract_type: &ContractType, contract: &Contract) -> (r: String)
    ensures
        r@ == output_path(*contract_type, contract.name@),
{
    let mut r = contract_type.directory_name();
    match contract_type {
        ContractType::Handler => {
            r.append("/");
        },
        ContractType::Property => {
            r.append("/");
        },
        _ => {},
    }
    r.append(contract.file_name().as_str());
    r
}

impl TestSuite {
    /// The paths of all files of the campaign, relative to the output root
    /// and in the order in which they are written.
    pub fn file_paths(&self) -> (r: Vec<String>)
        ensures
            texts_of(r@) == suite_paths(self@),
    {
        let mut paths: Vec<String> = Vec::new();
        assert(texts_of(paths@) =~= Seq::<Seq<char>>::empty());
        push_family_paths(&mut paths, &ContractType::Handler, self.handlers.as_slice());
        push_path(&mut paths, &ContractType::Handler, &self.handlers_parent);
        let ghost handler_paths = texts_of(paths@);
        proof {
            let t = ContractType::Handler;
            let leaves = views_of(self.handlers@);
            assert(handler_paths =~= family_paths(t, leaves.push(self.handlers_parent@)));
        }
        push_family_paths(&mut paths, &ContractType::Property, self.properties.as_slice());
        push_path(&mut paths, &ContractType::Property, &self.properties_parent);
        let ghost family_paths_done = texts_of(paths@);
        proof {
            let t = ContractType::Property;
            let leaves = views_of(self.properties@);
            assert(family_paths_done =~= handler_paths + family_paths(
                t,
                leaves.push(self.properties_parent@),
            ));
        }
        push_path(&mut paths, &ContractType::EntryPoint, &self.entry_point);
        push_path(&mut paths, &ContractType::Setup, &self.setup);
        proof {
            assert(texts_of(paths@) =~= suite_paths(self@));
        }
        paths
    }
}

/// Appends the path of the file of one contract.
fn push_path(paths: &mut Vec<String>, contract_type: &ContractType, contract: &Contract)
    ensures
        texts_of(final(paths)@) == texts_of(old(paths)@).push(
            output_path(*contract_type, contract.name@),
        ),
{
    let path = contract_path(contract_type, contract);
    paths.push(path);
    proof {
        assert(texts_of(paths@) =~= texts_of(old(paths)@).push(path@));
    }
}

/// Appends the paths of the files of one family, in the order of its
/// contracts.
fn push_family_paths(paths: &mut Vec<String>, contract_type: &ContractType, contracts: &[Contract])
    ensures
        texts_of(final(paths)@) == texts_of(old(paths)@) + family_paths(
            *contract_type,
            views_of(contracts@),
        ),
{
    let ghost before = texts_of(paths@);
    let ghost views = views_of(contracts@);
    let mut i: usize = 0;
    proof {
        assert(before + family_paths(*contract_type, views.take(0)) =~= before);
    }
    while i < contracts.len()
        invariant
            i <= contracts.len(),
            views == views_of(contracts@),
            texts_of(paths@) == before + family_paths(*contract_type, views.take(i as int)),
        decreases contracts.len() - i,
    {
        push_path(paths, contract_type, &contracts[i]);
        proof {
            let t = *contract_type;
            assert(views[i as int] == contracts[i as int]@);
            assert(views.take(i + 1) =~= views.take(i as int).push(views[i as int]));
            assert(family_paths(t, views.take(i + 1)) =~= family_paths(t, views.take(i as int)).push(
                output_path(t, contracts[i as int].name@),
            ));
            assert(texts_of(paths@) =~= before + family_paths(t, views.take(i + 1)));
        }
        i += 1;
    }
    proof {
        assert(views.take(i as int) =~= views);
    }
}

/// How a staged output tree is copied into place.
#[derive(Debug, Clone, Copy, PartialEq, Eq, Structural)]
pub struct MovePlan {
    /// The output directory is not there yet and has to be made first.
    pub create_target: bool,
    /// Files that are already there are replaced.
    pub overwrite: bool,
    /// Files that are already there are left alone.
    pub skip_exist: bool,
    /// The contents of the staging directory are copied, not the directory.
    pub content_only: bool,
}

/// Decides how the staged tree goes into the output directory.
///
/// Refused with `TargetExists` exactly when the directory is there and may
/// not be overwritten. Otherwise the directory is made where it is missing,
/// and existing files are replaced if overwriting is allowed and
/// skipped if not.
pub fn plan_move(target_exists: bool, overwrite: bool) -> (r: Result<MovePlan, GenError>)
    ensures
        target_exists && !overwrite ==> r == Err::<MovePlan, GenError>(GenError::TargetExists),
        !(target_exists && !overwrite) ==> r == Ok::<MovePlan, GenError>(
            MovePlan {
                create_target: !target_exists,
                overwrite,
                skip_exist: !overwrite,
                content_only: true,
            },
        ),
{
    if target_exists && !overwrite {
        return Err(GenError::TargetExists);
    }
    Ok(MovePlan { create_target: !target_exists, overwrite, skip_exist: !overwrite, content_only: true })
}

} // verus!

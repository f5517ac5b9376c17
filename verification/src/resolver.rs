//! The two texts that an aggregator derives from its leaves: the block of
//! import statements and the list of parents.

use crate::types::Contract;
use vstd::prelude::*;

verus! {

/// The identifiers of a sequence of contracts, in the same order.
pub open spec fn names_of(contracts: Seq<Contract>) -> Seq<Seq<char>> {
    contracts.map_values(|c: Contract| c.name@)
}

/// The import statement for one leaf: it names the identifier twice, as the
/// symbol and as the file beside the aggregator, and ends its line.
pub open spec fn import_line(name: Seq<char>) -> Seq<char> {
    "import { "@ + name + " } from './"@ + name + ".t.sol';\n"@
}

/// One import line per identifier, in the order given. Nothing is dropped,
/// not even a name that occurs twice.
pub open spec fn import_block(names: Seq<Seq<char>>) -> Seq<char>
    decreases names.len(),
{
    if names.len() == 0 {
        Seq::empty()
    } else {
        import_block(names.drop_last()) + import_line(names.last())
    }
}

/// The identifiers in the order given, with a comma and a space between each
/// two: nothing before the first, nothing after the last.
pub open spec fn parent_list(names: Seq<Seq<char>>) -> Seq<char>
    decreases names.len(),
{
    if names.len() == 0 {
        Seq::empty()
    } else if names.len() == 1 {
        names[0]
    } else {
        parent_list(names.drop_last()) + ", "@ + names.last()
    }
}

/// The import statements of an aggregator: one line for each leaf, in the
/// order of the leaves.
pub fn parse_child_imports(parents: &[Contract]) -> (r: String)
    ensures
        r@ == import_block(names_of(parents@)),
{
    let ghost names = names_of(parents@);
    let mut output = String::new();
    let mut i: usize = 0;
    while i < parents.len()
        invariant
            i <= parents.len(),
            names == names_of(parents@),
            output@ == import_block(names.take(i as int)),
        decreases parents.len() - i,
    {
        let name = parents[i].name.as_str();
        output.append("import { ");
        output.append(name);
        output.append(" } from './");
        output.append(name);
        output.append(".t.sol';\n");
        proof {
            let next = names.take(i + 1);
            assert(next.drop_last() == names.take(i as int));
            assert(next.last() == name@);
        }
        i += 1;
    }
    proof {
        assert(names.take(i as int) == names);
    }
    output
}

/// The parents of an aggregator: the identifiers of its leaves, in their
/// order, separated by a comma and a space.
pub fn parse_parents(parents: &[Contract]) -> (r: String)
    ensures
        r@ == parent_list(names_of(parents@)),
{
    let ghost names = names_of(parents@);
    let mut output = String::new();
    let mut i: usize = 0;
    while i < parents.len()
        invariant
            i <= parents.len(),
            names == names_of(parents@),
            output@ == parent_list(names.take(i as int)),
        decreases parents.len() - i,
    {
        if i > 0 {
            output.append(", ");
        }
        output.append(parents[i].name.as_str());
        proof {
            let next = names.take(i + 1);
            assert(next.drop_last() == names.take(i as int));
            assert(next.last() == parents[i as int].name@);
            if i == 0 {
                assert(next[0] == next.last());
            }
        }
        i += 1;
    }
    proof {
        assert(names.take(i as int) == names);
    }
    output
}

} // verus!

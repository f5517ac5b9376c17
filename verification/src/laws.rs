//! What holds of every campaign: the properties that connect the namer, the
//! resolver and the generated suite.

use crate::cli::Args;
use crate::error::GenError;
use crate::layout::{file_name, output_path, suite_paths};
use crate::naming::{leaf_name, letter, MAX_LEAVES};
use crate::resolver::{import_block, import_line, parent_list};
use crate::suite::{expected_suite, leaf_names, outcome, suite_of, TestSuite};
use crate::types::{aggregator_name, stem, ContractType};
use vstd::prelude::*;

verus! {

/// The letters of the first positions are the capital letters in their
/// usual order: the first is `A`, each next one follows its predecessor
/// directly, and the last is `Z`.
pub proof fn lemma_letters_in_order(i: int, j: int)
    requires
        0 <= i < j < MAX_LEAVES,
    ensures
        letter(0) == 'A',
        letter(MAX_LEAVES - 1) == 'Z',
        letter(i) as int == 'A' as int + i,
        letter(j) as int == 'A' as int + j,
        (letter(i) as int) < (letter(j) as int),
{
}

/// The first `count` leaves of a family have `count` identifiers, no two of
/// them equal, each made of the stem and the letter of its position, so that
/// they come in the order of their letters.
pub proof fn lemma_leaf_names_distinct(t: ContractType, count: nat)
    requires
        count <= MAX_LEAVES,
    ensures
        leaf_names(t, count).len() == count,
        leaf_names(t, count).no_duplicates(),
        forall|i: int|
            0 <= i < count ==> #[trigger] leaf_names(t, count)[i] == stem(t).push(letter(i)),
        forall|i: int, j: int|
            0 <= i < j < count ==> (#[trigger] letter(i) as int) < (#[trigger] letter(j) as int),
{
    let names = leaf_names(t, count);
    assert forall|i: int, j: int| 0 <= i < names.len() && 0 <= j < names.len() && i != j implies names[i]
        != names[j] by {
        assert(names[i].last() == letter(i));
        assert(names[j].last() == letter(j));
    }
}

/// The aggregator of a family is called by the family's stem followed by
/// `Parent`, and no leaf of any family has that identifier.
pub proof fn lemma_aggregator_is_no_leaf(t: ContractType, u: ContractType, ordinal: int)
    ensures
        aggregator_name(t) == stem(t) + "Parent"@,
        aggregator_name(t) != leaf_name(u, ordinal),
{
    lemma_name_lengths(t);
    lemma_name_lengths(u);
    assert(leaf_name(u, ordinal).len() == stem(u).len() + 1);
}

/// How long the identifiers of a family are.
proof fn lemma_name_lengths(t: ContractType)
    ensures
        stem(t).len() == match t {
            ContractType::Handler => 7nat,
            ContractType::Property => 8nat,
            ContractType::EntryPoint => 8nat,
            ContractType::Setup => 5nat,
        },
        aggregator_name(t).len() == stem(t).len() + 6,
{
    reveal_strlit("Handler");
    reveal_strlit("Property");
    reveal_strlit("FuzzTest");
    reveal_strlit("Setup");
    reveal_strlit("Parent");
}

/// Without leaves there is no import; one leaf gives its one line; two
/// leaves give their two lines in the order of the leaves.
pub proof fn lemma_import_block_of_few(a: Seq<char>, b: Seq<char>)
    ensures
        import_block(Seq::empty()) == Seq::<char>::empty(),
        import_block(seq![a]) == import_line(a),
        import_block(seq![a, b]) == import_line(a) + import_line(b),
{
    let none = Seq::<Seq<char>>::empty();
    assert(import_block(none) =~= Seq::<char>::empty());
    assert(seq![a].drop_last() =~= none);
    assert(import_block(seq![a]) =~= import_block(none) + import_line(a));
    assert(seq![a, b].drop_last() =~= seq![a]);
    assert(import_block(seq![a, b]) =~= import_block(seq![a]) + import_line(b));
}

/// The import block of leaves followed by more leaves is the block of the
/// first followed by the block of the others: lines keep the order of the
/// leaves and none is merged or dropped.
pub proof fn lemma_import_block_concat(first: Seq<Seq<char>>, others: Seq<Seq<char>>)
    ensures
        import_block(first + others) == import_block(first) + import_block(others),
    decreases others.len(),
{
    if others.len() == 0 {
        assert(first + others =~= first);
        assert(import_block(first) + import_block(others) =~= import_block(first));
    } else {
        lemma_import_block_concat(first, others.drop_last());
        assert((first + others).drop_last() =~= first + others.drop_last());
        assert((first + others).last() == others.last());
        assert(import_block(first + others) =~= import_block(first) + import_block(others));
    }
}

/// Without leaves the list of parents is empty; one leaf gives its
/// identifier and nothing after it; two leaves give both with one comma and
/// one space between them.
pub proof fn lemma_parent_list_of_few(a: Seq<char>, b: Seq<char>)
    ensures
        parent_list(Seq::empty()) == Seq::<char>::empty(),
        parent_list(seq![a]) == a,
        parent_list(seq![a, b]) == a + ", "@ + b,
{
    assert(parent_list(seq![a]) == a);
    assert(seq![a, b].drop_last() =~= seq![a]);
    assert(parent_list(seq![a, b]) =~= parent_list(seq![a]) + ", "@ + b);
}

/// Generation has no hidden input: two runs that are asked for the same
/// numbers of handlers and properties come to the same contracts, or to the
/// same refusal.
pub proof fn lemma_generation_repeats(
    first: Args,
    second: Args,
    first_run: Result<TestSuite, GenError>,
    second_run: Result<TestSuite, GenError>,
)
    requires
        first.nb_handlers == second.nb_handlers,
        first.nb_properties == second.nb_properties,
        outcome(first_run) == expected_suite(first),
        outcome(second_run) == expected_suite(second),
    ensures
        outcome(first_run) == outcome(second_run),
{
}

/// How long the path of a file is, and where the last character of the
/// contract's identifier stands in it.
proof fn lemma_path_shape(t: ContractType, name: Seq<char>)
    requires
        name.len() > 0,
    ensures
        output_path(t, name).len() == name.len() + match t {
            ContractType::Handler => 15nat,
            ContractType::Property => 17nat,
            ContractType::EntryPoint => 6nat,
            ContractType::Setup => 6nat,
        },
        output_path(t, name)[output_path(t, name).len() - 7] == name.last(),
{
    reveal_strlit("handlers");
    reveal_strlit("properties");
    reveal_strlit("/");
    reveal_strlit(".t.sol");
    assert(file_name(name).len() == name.len() + 6);
    assert(file_name(name)[name.len() - 1] == name.last());
}

/// No two files of a campaign have the same path: within each directory
/// every identifier occurs once.
pub proof fn lemma_suite_paths_distinct(nb_handlers: nat, nb_properties: nat)
    requires
        nb_handlers <= MAX_LEAVES,
        nb_properties <= MAX_LEAVES,
    ensures
        suite_paths(suite_of(nb_handlers, nb_properties)).len() == nb_handlers + nb_properties + 4,
        suite_paths(suite_of(nb_handlers, nb_properties)).no_duplicates(),
{
    let suite = suite_of(nb_handlers, nb_properties);
    let paths = suite_paths(suite);
    let h = nb_handlers as int;
    let p = nb_properties as int;
    let handler = ContractType::Handler;
    let property = ContractType::Property;
    lemma_name_lengths(handler);
    lemma_name_lengths(property);
    lemma_name_lengths(ContractType::EntryPoint);
    lemma_name_lengths(ContractType::Setup);
    assert(paths.len() == h + p + 4);
    // Each path is told from the others by its length and, among the leaves
    // of one family, by the letter that ends the identifier.
    assert forall|k: int| 0 <= k < h implies #[trigger] paths[k].len() == 23 && paths[k][16]
        == letter(k) by {
        assert(paths[k] == output_path(handler, leaf_name(handler, k)));
        lemma_path_shape(handler, leaf_name(handler, k));
    }
    assert(paths[h].len() == 28) by {
        assert(paths[h] == output_path(handler, aggregator_name(handler)));
        lemma_path_shape(handler, aggregator_name(handler));
    }
    assert forall|k: int| h < k < h + 1 + p implies #[trigger] paths[k].len() == 26 && paths[k][19]
        == letter(k - h - 1) by {
        assert(paths[k] == output_path(property, leaf_name(property, k - h - 1)));
        lemma_path_shape(property, leaf_name(property, k - h - 1));
    }
    assert(paths[h + 1 + p].len() == 31) by {
        assert(paths[h + 1 + p] == output_path(property, aggregator_name(property)));
        lemma_path_shape(property, aggregator_name(property));
    }
    assert(paths[h + p + 2].len() == 14) by {
        assert(paths[h + p + 2] == output_path(
            ContractType::EntryPoint,
            stem(ContractType::EntryPoint),
        ));
        lemma_path_shape(ContractType::EntryPoint, stem(ContractType::EntryPoint));
    }
    assert(paths[h + p + 3].len() == 11) by {
        assert(paths[h + p + 3] == output_path(ContractType::Setup, stem(ContractType::Setup)));
        lemma_path_shape(ContractType::Setup, stem(ContractType::Setup));
    }
    assert forall|i: int, j: int| 0 <= i < paths.len() && 0 <= j < paths.len() && i != j implies paths[i]
        != paths[j] by {
        if i < h && j < h {
            assert(paths[i][16] != paths[j][16]);
        } else if h < i < h + 1 + p && h < j < h + 1 + p {
            assert(paths[i][19] != paths[j][19]);
        } else {
            assert(paths[i].len() != paths[j].len());
        }
    }
}

} // verus!

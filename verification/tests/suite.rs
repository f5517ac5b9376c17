use medusa_gen::{
    contract_path, create_contracts, generate_child, generate_parents, generate_test_suite,
    leaf_letter, leaf_name_of, plan_move, Args, Contract, ContractType, GenError, MovePlan,
    MAX_LEAVES,
};

fn args(nb_handlers: u8, nb_properties: u8) -> Args {
    Args {
        overwrite: true,
        solc: "0.8.23".to_string(),
        nb_handlers,
        nb_properties,
    }
}

fn names(contracts: &[Contract]) -> Vec<String> {
    contracts.iter().map(|c| c.name.clone()).collect()
}

#[test]
fn test_create_contracts() {
    let contract_type = ContractType::Handler;
    let count = 2;

    let contracts = create_contracts(&contract_type, count).unwrap();

    // Check that the correct number of contracts was created
    assert_eq!(contracts.len(), 2);

    // Check that the contracts have the expected names
    assert_eq!(contracts[0].name, "HandlerA");
    assert_eq!(contracts[1].name, "HandlerB");

    // The files go to the family's directory
    assert_eq!(contract_type.directory_name(), "handlers");
    assert_eq!(
        contract_path(&contract_type, &contracts[0]),
        "handlers/HandlerA.t.sol"
    );
    assert_eq!(
        contract_path(&contract_type, &contracts[1]),
        "handlers/HandlerB.t.sol"
    );
    assert!(!names(&contracts).contains(&"HandlerC".to_string()));
}

#[test]
fn test_create_contracts_empty() {
    let contract_type = ContractType::Handler;
    let count = 0;

    let contracts = create_contracts(&contract_type, count).unwrap();

    // Check that no contracts were created
    assert!(contracts.is_empty());

    // The directory is still the family's
    assert_eq!(contract_type.directory_name(), "handlers");
}

#[test]
fn test_generate_parents() {
    let args = Args {
        overwrite: true,
        solc: "0.8.23".to_string(),
        nb_handlers: 2,
        nb_properties: 1,
    };

    // Test Handler parents
    let handler_parents = generate_parents(ContractType::Handler, &args).unwrap();

    assert_eq!(handler_parents.len(), 2);
    assert_eq!(handler_parents[0].name, "HandlerA");
    assert_eq!(handler_parents[1].name, "HandlerB");

    // Test Property parents
    let property_parents = generate_parents(ContractType::Property, &args).unwrap();

    assert_eq!(property_parents.len(), 1);
    assert_eq!(property_parents[0].name, "PropertyA");
}

#[test]
fn test_generate_parents_invalid_type() {
    let args = Args {
        overwrite: true,
        solc: "0.8.23".to_string(),
        nb_handlers: 2,
        nb_properties: 1,
    };

    let result = generate_parents(ContractType::Setup, &args);

    assert!(result.is_err());
    assert_eq!(
        result.unwrap_err().to_string(),
        "Invalid contract type in generate_parents"
    );
}

#[test]
fn leaves_of_the_entry_point_are_refused() {
    let result = generate_parents(ContractType::EntryPoint, &args(2, 2));
    assert_eq!(result, Err(GenError::InvalidFamilyForLeafGeneration));
    let result = generate_parents(ContractType::Setup, &args(0, 0));
    assert_eq!(result, Err(GenError::InvalidFamilyForLeafGeneration));
}

#[test]
fn letters_run_from_a_to_z() {
    assert_eq!(MAX_LEAVES, 26);
    assert_eq!(leaf_letter(0), Ok('A'));
    assert_eq!(leaf_letter(1), Ok('B'));
    assert_eq!(leaf_letter(25), Ok('Z'));
    assert_eq!(leaf_letter(26), Err(GenError::OrdinalOutOfRange));
    assert_eq!(leaf_letter(255), Err(GenError::OrdinalOutOfRange));
}

#[test]
fn a_leaf_is_named_by_stem_and_letter() {
    assert_eq!(
        leaf_name_of(&ContractType::Handler, 0),
        Ok("HandlerA".to_string())
    );
    assert_eq!(
        leaf_name_of(&ContractType::Property, 2),
        Ok("PropertyC".to_string())
    );
    assert_eq!(
        leaf_name_of(&ContractType::Handler, 25),
        Ok("HandlerZ".to_string())
    );
    assert_eq!(
        leaf_name_of(&ContractType::Handler, 26),
        Err(GenError::OrdinalOutOfRange)
    );
    assert_eq!(
        leaf_name_of(&ContractType::Property, 200),
        Err(GenError::OrdinalOutOfRange)
    );
}

#[test]
fn every_count_up_to_the_alphabet_gives_distinct_ordered_names() {
    for family in [ContractType::Handler, ContractType::Property] {
        for count in 1..=26u8 {
            let contracts = create_contracts(&family, count).unwrap();
            let names = names(&contracts);
            assert_eq!(names.len(), count as usize);
            for i in 0..names.len() {
                assert_eq!(
                    names[i],
                    format!("{}{}", family.name(), (b'A' + i as u8) as char)
                );
                for j in (i + 1)..names.len() {
                    assert_ne!(names[i], names[j]);
                    assert!(names[i] < names[j]);
                }
            }
        }
    }
}

#[test]
fn more_leaves_than_letters_are_refused() {
    assert_eq!(
        create_contracts(&ContractType::Handler, 27),
        Err(GenError::OrdinalOutOfRange)
    );
    assert_eq!(
        create_contracts(&ContractType::Property, 255),
        Err(GenError::OrdinalOutOfRange)
    );
    assert_eq!(
        generate_parents(ContractType::Handler, &args(27, 1)),
        Err(GenError::OrdinalOutOfRange)
    );
    assert_eq!(
        generate_test_suite(&args(27, 1)),
        Err(GenError::OrdinalOutOfRange)
    );
    assert_eq!(
        generate_test_suite(&args(1, 27)),
        Err(GenError::OrdinalOutOfRange)
    );
    assert!(generate_test_suite(&args(26, 26)).is_ok());
}

#[test]
fn a_leaf_carries_what_its_family_fixes() {
    let contracts = create_contracts(&ContractType::Property, 1).unwrap();
    assert_eq!(
        contracts[0],
        Contract {
            licence: "MIT".to_string(),
            solc: "^0.8.0".to_string(),
            imports: "import {HandlerParent} from '../handlers/HandlerParent.t.sol';".to_string(),
            name: "PropertyA".to_string(),
            parents: "HandlerParent".to_string(),
        }
    );
}

#[test]
fn the_aggregator_is_never_one_of_the_leaves() {
    for family in [ContractType::Handler, ContractType::Property] {
        let leaves = create_contracts(&family, 26).unwrap();
        let child = generate_child(&family, &leaves);
        assert_eq!(child.name, format!("{}Parent", family.name()));
        for leaf in &leaves {
            assert_ne!(leaf.name, child.name);
            assert_ne!(leaf.name, ContractType::Handler.parent_name());
            assert_ne!(leaf.name, ContractType::Property.parent_name());
        }
    }
}

#[test]
fn the_aggregator_folds_its_leaves() {
    let leaves = create_contracts(&ContractType::Handler, 3).unwrap();
    let child = generate_child(&ContractType::Handler, &leaves);
    assert_eq!(
        child,
        Contract {
            licence: "MIT".to_string(),
            solc: "^0.8.0".to_string(),
            imports: "import { HandlerA } from './HandlerA.t.sol';\nimport { HandlerB } from './HandlerB.t.sol';\nimport { HandlerC } from './HandlerC.t.sol';\n".to_string(),
            name: "HandlerParent".to_string(),
            parents: "HandlerA, HandlerB, HandlerC".to_string(),
        }
    );
}

#[test]
fn two_handlers_and_two_properties() {
    let suite = generate_test_suite(&args(2, 2)).unwrap();

    assert_eq!(names(&suite.handlers), vec!["HandlerA", "HandlerB"]);
    for leaf in &suite.handlers {
        assert_eq!(leaf.imports, "import {Setup} from '../Setup.t.sol';");
        assert_eq!(leaf.parents, "Setup");
    }
    assert_eq!(suite.handlers_parent.name, "HandlerParent");
    assert_eq!(suite.handlers_parent.parents, "HandlerA, HandlerB");
    assert_eq!(
        suite.handlers_parent.imports,
        "import { HandlerA } from './HandlerA.t.sol';\nimport { HandlerB } from './HandlerB.t.sol';\n"
    );

    assert_eq!(names(&suite.properties), vec!["PropertyA", "PropertyB"]);
    for leaf in &suite.properties {
        assert_eq!(
            leaf.imports,
            "import {HandlerParent} from '../handlers/HandlerParent.t.sol';"
        );
        assert_eq!(leaf.parents, "HandlerParent");
    }
    assert_eq!(suite.properties_parent.name, "PropertyParent");
    assert_eq!(suite.properties_parent.parents, "PropertyA, PropertyB");
    assert_eq!(
        suite.properties_parent.imports,
        "import { PropertyA } from './PropertyA.t.sol';\nimport { PropertyB } from './PropertyB.t.sol';\n"
    );

    assert_eq!(suite.entry_point.name, "FuzzTest");
    assert_eq!(
        suite.entry_point.imports,
        "import {PropertyParent} from './properties/PropertyParent.t.sol';"
    );
    assert_eq!(suite.entry_point.parents, "PropertyParent");

    assert_eq!(suite.setup.name, "Setup");
    assert_eq!(suite.setup.imports, "");
    assert_eq!(suite.setup.parents, "");
}

#[test]
fn every_contract_carries_the_defaults() {
    let suite = generate_test_suite(&args(1, 1)).unwrap();
    let all = [
        &suite.handlers[0],
        &suite.handlers_parent,
        &suite.properties[0],
        &suite.properties_parent,
        &suite.entry_point,
        &suite.setup,
    ];
    for contract in all {
        assert_eq!(contract.licence, "MIT");
        assert_eq!(contract.solc, "^0.8.0");
    }
}

#[test]
fn a_family_without_leaves_has_an_empty_aggregator() {
    let suite = generate_test_suite(&args(0, 0)).unwrap();
    assert!(suite.handlers.is_empty());
    assert!(suite.properties.is_empty());
    assert_eq!(suite.handlers_parent.name, "HandlerParent");
    assert_eq!(suite.handlers_parent.imports, "");
    assert_eq!(suite.handlers_parent.parents, "");
    assert_eq!(suite.properties_parent.name, "PropertyParent");
    assert_eq!(suite.properties_parent.imports, "");
    assert_eq!(suite.properties_parent.parents, "");
}

#[test]
fn two_runs_give_the_same_suite() {
    let first = generate_test_suite(&args(3, 5));
    let second = generate_test_suite(&args(3, 5));
    assert_eq!(first, second);

    let other_options = Args {
        overwrite: false,
        solc: "0.7.6".to_string(),
        nb_handlers: 3,
        nb_properties: 5,
    };
    assert_eq!(first, generate_test_suite(&other_options));

    assert_eq!(
        generate_test_suite(&args(30, 5)),
        generate_test_suite(&args(30, 5))
    );
}

#[test]
fn files_of_a_campaign_in_writing_order() {
    let suite = generate_test_suite(&args(2, 1)).unwrap();
    assert_eq!(
        suite.file_paths(),
        vec![
            "handlers/HandlerA.t.sol",
            "handlers/HandlerB.t.sol",
            "handlers/HandlerParent.t.sol",
            "properties/PropertyA.t.sol",
            "properties/PropertyParent.t.sol",
            "FuzzTest.t.sol",
            "Setup.t.sol",
        ]
    );
}

#[test]
fn no_two_files_share_a_path() {
    let suite = generate_test_suite(&args(26, 26)).unwrap();
    let paths = suite.file_paths();
    assert_eq!(paths.len(), 26 + 26 + 4);
    for i in 0..paths.len() {
        for j in (i + 1)..paths.len() {
            assert_ne!(paths[i], paths[j]);
        }
    }
}

#[test]
fn a_file_is_named_after_its_contract() {
    let suite = generate_test_suite(&args(1, 1)).unwrap();
    assert_eq!(suite.setup.file_name(), "Setup.t.sol");
    assert_eq!(suite.handlers[0].file_name(), "HandlerA.t.sol");
    assert_eq!(
        contract_path(&ContractType::Setup, &suite.setup),
        "Setup.t.sol"
    );
    assert_eq!(
        contract_path(&ContractType::EntryPoint, &suite.entry_point),
        "FuzzTest.t.sol"
    );
    assert_eq!(
        contract_path(&ContractType::Property, &suite.properties_parent),
        "properties/PropertyParent.t.sol"
    );
}

#[test]
fn an_existing_target_needs_overwrite() {
    let result = plan_move(true, false);
    assert_eq!(result, Err(GenError::TargetExists));
    assert_eq!(
        result.unwrap_err().to_string(),
        "Fuzz test folder already exists, did you mean --overwrite ?"
    );
}

#[test]
fn an_existing_target_is_overwritten_on_request() {
    assert_eq!(
        plan_move(true, true),
        Ok(MovePlan {
            create_target: false,
            overwrite: true,
            skip_exist: false,
            content_only: true,
        })
    );
}

#[test]
fn a_missing_target_is_made_first() {
    assert_eq!(
        plan_move(false, false),
        Ok(MovePlan {
            create_target: true,
            overwrite: false,
            skip_exist: true,
            content_only: true,
        })
    );
    assert_eq!(
        plan_move(false, true),
        Ok(MovePlan {
            create_target: true,
            overwrite: true,
            skip_exist: false,
            content_only: true,
        })
    );
}

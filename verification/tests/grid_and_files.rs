use psyche_client::files::{checkpoint_extra_files, is_checkpoint_extra};
use psyche_client::grid::{group_models, rank_slots, RankSlot};

#[test]
fn rank_slots_enumerate_the_grid_in_rank_order() {
    let slots = rank_slots(2, 3);
    let expected: Vec<RankSlot> = vec![
        RankSlot { dp: 0, tp: 0, rank: 0 },
        RankSlot { dp: 0, tp: 1, rank: 1 },
        RankSlot { dp: 0, tp: 2, rank: 2 },
        RankSlot { dp: 1, tp: 0, rank: 3 },
        RankSlot { dp: 1, tp: 1, rank: 4 },
        RankSlot { dp: 1, tp: 2, rank: 5 },
    ];
    assert_eq!(slots, expected);
}

#[test]
fn rank_slots_of_an_empty_grid() {
    assert!(rank_slots(0, 4).is_empty());
    assert!(rank_slots(3, 0).is_empty());
    assert_eq!(rank_slots(3, 1).len(), 3);
}

#[test]
fn group_models_cuts_full_groups() {
    let groups = group_models(vec![10, 11, 12, 13, 14, 15], 3);
    assert_eq!(groups, vec![vec![10, 11, 12], vec![13, 14, 15]]);
}

#[test]
fn group_models_leaves_a_short_last_group() {
    let groups = group_models(vec![1, 2, 3, 4, 5], 2);
    assert_eq!(groups, vec![vec![1, 2], vec![3, 4], vec![5]]);
}

#[test]
fn group_models_with_zero_tensor_parallelism_keeps_one_group() {
    let groups = group_models(vec!['a', 'b', 'c'], 0);
    assert_eq!(groups, vec![vec!['a', 'b', 'c']]);
}

#[test]
fn group_models_of_nothing() {
    let groups: Vec<Vec<u8>> = group_models(Vec::new(), 4);
    assert!(groups.is_empty());
    let groups: Vec<Vec<u8>> = group_models(Vec::new(), 0);
    assert!(groups.is_empty());
}

#[test]
fn grouped_grid_rows_hold_one_data_parallel_rank_each() {
    let groups = group_models(rank_slots(3, 2), 2);
    assert_eq!(groups.len(), 3);
    for (g, group) in groups.iter().enumerate() {
        assert_eq!(group.len(), 2);
        for (j, slot) in group.iter().enumerate() {
            assert_eq!(slot.dp, g);
            assert_eq!(slot.tp, j);
            assert_eq!(slot.rank, g * 2 + j);
        }
    }
}

#[test]
fn extra_files_keep_configuration_and_tokenizer_files() {
    let names = vec![
        Some("config.json".to_string()),
        Some("model-00001.safetensors".to_string()),
        None,
        Some("tokenizer.json".to_string()),
        Some("modeling.py".to_string()),
        Some(".py".to_string()),
        Some("generation_config.json".to_string()),
        Some("tokenizer_config.json".to_string()),
        Some("special_tokens_map.json".to_string()),
        Some("config.json.bak".to_string()),
    ];
    assert_eq!(checkpoint_extra_files(&names), vec![0, 3, 5, 6, 7, 8]);
}

#[test]
fn extra_file_names_match_whole_components_only() {
    assert!(is_checkpoint_extra(&Some("config.json".to_string())));
    assert!(!is_checkpoint_extra(&Some("my_config.json".to_string())));
    assert!(!is_checkpoint_extra(&Some("train.py".to_string())));
    assert!(!is_checkpoint_extra(&None));
    assert!(checkpoint_extra_files(&Vec::new()).is_empty());
}

use image_store::store::{
    delete_image_versions, get_total_images_size, FsNode, RemoveOutcome, Slot,
};

#[test]
fn deleting_with_a_missing_file_succeeds() {
    let report = delete_image_versions(
        RemoveOutcome::Missing,
        RemoveOutcome::Removed,
        RemoveOutcome::Removed,
    );
    assert!(report.suppressed.is_empty());
}

#[test]
fn deletion_swallows_genuine_failures() {
    let report = delete_image_versions(
        RemoveOutcome::Removed,
        RemoveOutcome::Failed,
        RemoveOutcome::Missing,
    );
    assert_eq!(report.suppressed, vec![Slot::Display]);
}

#[test]
fn size_of_missing_root_is_zero() {
    assert_eq!(get_total_images_size(&None), Some(0));
}

#[test]
fn size_of_empty_directory_is_zero() {
    let root = FsNode::Dir { entries: vec![] };
    assert_eq!(get_total_images_size(&Some(root)), Some(0));
}

#[test]
fn size_sums_nested_directories() {
    let root = FsNode::Dir {
        entries: vec![
            FsNode::File { size: 10 },
            FsNode::Dir {
                entries: vec![
                    FsNode::File { size: 5 },
                    FsNode::Dir { entries: vec![FsNode::File { size: 7 }] },
                ],
            },
            FsNode::Dir { entries: vec![] },
        ],
    };
    assert_eq!(get_total_images_size(&Some(root)), Some(22));
}

#[test]
fn size_overflow_is_reported() {
    let root = FsNode::Dir {
        entries: vec![FsNode::File { size: u64::MAX }, FsNode::File { size: 1 }],
    };
    assert_eq!(get_total_images_size(&Some(root)), None);
}

use libterm::pane::{LayoutNode, PaneManager, PaneSlot, SplitDirection};

#[test]
fn test_nested_split() {
    let mut mgr = PaneManager::new();
    mgr.split(SplitDirection::Vertical);
    mgr.split(SplitDirection::Horizontal);
    assert_eq!(mgr.count(), 3);
}

#[test]
fn test_focus() {
    let mut mgr = PaneManager::new();
    mgr.split(SplitDirection::Vertical);
    mgr.focus(1);
    assert_eq!(mgr.active(), 1);
}

#[test]
fn splits_make_a_tree() {
    let mut mgr = PaneManager::new();
    assert_eq!(mgr.slots(), vec![PaneSlot { id: 1, active: true }]);
    assert_eq!(mgr.split(SplitDirection::Vertical), 2);
    assert_eq!(mgr.active(), 2);
    mgr.focus(1);
    assert_eq!(mgr.split(SplitDirection::Horizontal), 3);
    assert_eq!(
        mgr.slots(),
        vec![
            PaneSlot { id: 1, active: false },
            PaneSlot { id: 3, active: true },
            PaneSlot { id: 2, active: true },
        ]
    );
    match &mgr.root {
        LayoutNode::Split { direction, first, .. } => {
            assert_eq!(*direction, SplitDirection::Vertical);
            assert!(matches!(
                **first,
                LayoutNode::Split { direction: SplitDirection::Horizontal, .. }
            ));
        }
        LayoutNode::Leaf(_) => panic!("the root was split"),
    }
    // a pane that is not there cannot be split, yet the number is used
    mgr.focus(9);
    assert_eq!(mgr.split(SplitDirection::Vertical), 4);
    assert_eq!(mgr.count(), 3);
    assert_eq!(mgr.active(), 4);
}

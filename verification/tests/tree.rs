use fifo_queue::tree::BinaryTree::{Empty, NonEmpty};
use fifo_queue::tree::TreeNode;

#[test]
fn test_build_basic_tree() {
    let jupiter_tree = NonEmpty(Box::new(TreeNode {
        element: "Jupiter",
        left: Empty,
        right: Empty,
    }));

    let mercury_tree = NonEmpty(Box::new(TreeNode {
        element: "Mercury",
        left: Empty,
        right: Empty,
    }));

    let mars_tree = NonEmpty(Box::new(TreeNode {
        element: "Mars",
        left: jupiter_tree,
        right: mercury_tree,
    }));

    let uranus_tree = NonEmpty(Box::new(TreeNode {
        element: "Uranus",
        left: Empty,
        right: Empty,
    }));

    let _tree = NonEmpty(Box::new(TreeNode {
        element: "Saturn",
        left: mars_tree,
        right: uranus_tree,
    }));
}

#[test]
fn a_tree_keeps_what_it_was_built_from() {
    let leaf = NonEmpty(Box::new(TreeNode { element: 1, left: Empty, right: Empty }));
    let root = NonEmpty(Box::new(TreeNode { element: 2, left: leaf, right: Empty }));
    match root {
        NonEmpty(node) => {
            assert_eq!(node.element, 2);
            assert!(matches!(node.right, Empty));
            match node.left {
                NonEmpty(left) => assert_eq!(left.element, 1),
                Empty => panic!("the left subtree was lost"),
            }
        }
        Empty => panic!("the root was lost"),
    }
}

use linked_list::LinkedNode;

fn render(node: &LinkedNode<i32>) -> String {
    let mut out = String::new();
    let mut it = node.iter();
    while let Some(x) = it.next() {
        out.push_str(&format!("{:?} ", x));
    }
    out
}

fn values(node: &LinkedNode<i32>) -> Vec<i32> {
    let mut out = Vec::new();
    let mut it = node.iter();
    while let Some(x) = it.next() {
        out.push(*x);
    }
    out
}

#[test]
fn test_linked_list() {
    let mut node: LinkedNode<i32> = LinkedNode::new(0);
    node.push(1);
    node.push(2);
    node.push(3);
    node.push(4);
    node.push(5);
    node.push(6);

    println!("{}", render(&node));
    {
        let mut it = node.iter_mut();
        while let Some(x) = it.next() {
            *x += 10;
        }
    }
    println!("{}", render(&node));

    let v = node.pop();
    println!("{:?}", v);
    assert_eq!(v, Some(16));
    let v = node.pop();
    println!("{:?}", v);
    assert_eq!(v, Some(15));
    let v = node.pop();
    println!("{:?}", v);
    assert_eq!(v, Some(14));
    let v = node.pop();
    assert_eq!(v, Some(13));

    println!("{}", render(&node));

    let v1 = node[0];
    println!("{:?}", v1);
    assert_eq!(v1, 10);
    let v1 = node[1];
    println!("{:?}", v1);
    assert_eq!(v1, 11);

    *node.index_mut(0) += 1000;
    let v1 = node[0];
    println!("{:?}", v1);
    assert_eq!(v1, 1010);
    *node.index_mut(1) += 1000;
    let v1 = node[1];
    println!("{:?}", v1);
    assert_eq!(v1, 1011);

    *node.index_mut(2) += 1000;
    let v1 = node[2];
    println!("{:?}", v1);
    assert_eq!(v1, 1012);

    assert_ne!(node[0], node[1]);
    *node.index_mut(1) = 1010;
    assert_eq!(node[0], node[1]);

    assert!(node[2] > node[0]);
    assert!(node[1] < node[2]);
    assert!(node[0] <= node[1]);
    assert!(node[0] >= node[1]);

    let mut x = vec![1, 2, 3];
    for a in x.iter_mut() {
        *a = 100;
    }
    assert_eq!(x, vec![100, 100, 100]);
}

#[test]
fn new_holds_value_and_pops_nothing() {
    let mut node = LinkedNode::new(42);
    assert_eq!(node[0], 42);
    assert_eq!(node.pop(), None);
    assert_eq!(values(&node), vec![42]);
}

#[test]
fn pushes_are_indexable_in_order() {
    let mut node = LinkedNode::new(0);
    let n: i32 = 5;
    for k in 1..=n {
        node.push(k * 3);
    }
    for i in 0..=(n as usize) {
        assert_eq!(node[i], (i as i32) * 3);
    }
    assert_eq!(values(&node).len(), 6);
}

#[test]
fn pops_come_from_the_tail_in_reverse() {
    let mut node = LinkedNode::new(0);
    for k in 1..=6 {
        node.push(k);
    }
    assert_eq!(node.pop(), Some(6));
    assert_eq!(node.pop(), Some(5));
    assert_eq!(node.pop(), Some(4));
    assert_eq!(node.pop(), Some(3));
    assert_eq!(values(&node), vec![0, 1, 2]);
}

#[test]
fn push_then_pop_restores_the_list() {
    let mut node = LinkedNode::new(7);
    node.push(8);
    node.push(9);
    assert_eq!(node.pop(), Some(9));
    assert_eq!(values(&node), vec![7, 8]);
}

#[test]
fn mutable_iteration_changes_every_value() {
    let mut node = LinkedNode::new(0);
    node.push(1);
    node.push(2);
    {
        let mut it = node.iter_mut();
        while let Some(x) = it.next() {
            *x += 10;
        }
        assert!(it.next().is_none());
    }
    assert_eq!(values(&node), vec![10, 11, 12]);
}

#[test]
fn write_then_read_by_index() {
    let mut node = LinkedNode::new(1);
    node.push(2);
    node.push(3);
    *node.index_mut(1) = 50;
    assert_eq!(node[1], 50);
    let before = node[2];
    *node.index_mut(2) += 4;
    assert_eq!(node[2], before + 4);
    assert_eq!(values(&node), vec![1, 50, 7]);
}

#[test]
fn comparison_ignores_the_tails() {
    let mut a = LinkedNode::new(5);
    a.push(1);
    a.push(2);
    let b = LinkedNode::new(5);
    assert!(a == b);
    assert!(!(a != b));
    assert!(a <= b);
    assert!(a >= b);
    assert!(!(a < b));
    assert!(!(a > b));
    assert_eq!(a.partial_cmp(&b), Some(std::cmp::Ordering::Equal));

    let mut c = LinkedNode::new(9);
    c.push(0);
    assert!(a != c);
    assert!(a < c);
    assert!(c > b);
    assert_eq!(c.partial_cmp(&a), Some(std::cmp::Ordering::Greater));
}

#[test]
fn iter_twice_yields_the_same_values() {
    let mut node = LinkedNode::new(3);
    node.push(1);
    node.push(4);
    let first = values(&node);
    let second = values(&node);
    assert_eq!(first, vec![3, 1, 4]);
    assert_eq!(first, second);

    let mut it = node.iter();
    assert_eq!(it.next(), Some(&3));
    assert_eq!(it.next(), Some(&1));
    assert_eq!(it.next(), Some(&4));
    assert_eq!(it.next(), None);
    assert_eq!(it.next(), None);
}

#[test]
fn pops_past_the_head_return_nothing() {
    let mut node = LinkedNode::new(1);
    node.push(2);
    assert_eq!(node.pop(), Some(2));
    for _ in 0..5 {
        assert_eq!(node.pop(), None);
    }
    assert_eq!(values(&node), vec![1]);
    assert_eq!(node[0], 1);
}

#[test]
fn heads_that_do_not_compare_order_as_equal() {
    let a = LinkedNode::new(f64::NAN);
    let mut b = LinkedNode::new(1.0);
    b.push(2.0);
    assert_eq!(a.partial_cmp(&b), Some(std::cmp::Ordering::Equal));
    assert_eq!(b.partial_cmp(&a), Some(std::cmp::Ordering::Equal));
    assert!(!(a < b));
    assert!(!(a > b));
}

#[test]
fn order_operators_ignore_the_tails() {
    let mut a = LinkedNode::new(1);
    a.push(100);
    let b = LinkedNode::new(2);
    assert!(a < b);
    assert!(a <= b);
    assert!(!(a > b));
    assert!(!(a >= b));
    assert_eq!(a.partial_cmp(&b), Some(std::cmp::Ordering::Less));
}

use wff::{Operator, Variable, Wff};

fn chars_of(s: &str) -> Vec<char> {
    s.chars().collect()
}

#[test]
fn test_example_formula() {
    // (A ∨ B) → C, the end-to-end scenario.
    let or = Operator::or();
    let imp = Operator::imp();
    let a = Variable::new('A').wff();
    let b = Variable::new('B').wff();
    let c = Variable::new('C').wff();

    let mut disj = Wff::new(a);
    disj.add_2arity(or, b);

    let mut impli = Wff::new(disj);
    impli.add_2arity(imp, c);

    assert_eq!(impli.rpn().as_str(), "AB∨C→");
    assert_eq!(impli.pn().as_str(), "→C∨BA");
}

#[test]
fn test_single_variable_rpn() {
    let v = Variable::new('A');
    assert_eq!(v.wff().rpn().as_str(), "A");
    let z = Variable::new('Z');
    assert_eq!(Wff::new_variable(z).rpn().as_str(), "Z");
}

#[test]
fn test_binary_composition_of_variables() {
    let x = Variable::new('P').wff();
    let y = Variable::new('Q').wff();
    let mut w = Wff::new(x);
    w.add_2arity(Operator::and(), y);
    let r = w.rpn();
    assert_eq!(r.as_str(), "PQ∧");
    assert_eq!(r.chars().count(), 3);
    assert_eq!(chars_of(&r), vec!['P', 'Q', '∧']);
}

#[test]
fn test_unary_append_adds_one_element() {
    let mut w = Variable::new('A').wff();
    w.add_2arity(Operator::or(), Variable::new('B').wff());
    let before = w.rpn().chars().count();
    w.add_1arity(Operator::neg());
    let r = w.rpn();
    assert_eq!(r.chars().count(), before + 1);
    assert_eq!(r.chars().last(), Some('¬'));
    assert_eq!(r.as_str(), "AB∨¬");
}

#[test]
fn test_composition_length_is_sum_plus_one() {
    // length 3 on the left, length 1 on the right: 3 + 1 + 1 = 5.
    let mut left = Variable::new('A').wff();
    left.add_2arity(Operator::and(), Variable::new('B').wff());
    assert_eq!(left.rpn().chars().count(), 3);
    let right = Variable::new('C').wff();
    let mut combined = Wff::new(left);
    combined.add_2arity(Operator::imp(), right);
    assert_eq!(combined.rpn().chars().count(), 5);

    // length 1 on the left, length 4 on the right: 1 + 4 + 1 = 6.
    let mut right2 = Variable::new('D').wff();
    right2.add_2arity(Operator::or(), Variable::new('E').wff());
    right2.add_1arity(Operator::neg());
    assert_eq!(right2.rpn().chars().count(), 4);
    let mut combined2 = Variable::new('F').wff();
    combined2.add_2arity(Operator::and(), right2);
    assert_eq!(combined2.rpn().chars().count(), 6);
}

#[test]
fn test_pn_is_character_reverse_of_rpn() {
    let mut w = Variable::new('A').wff();
    w.add_2arity(Operator::or(), Variable::new('B').wff());
    w.add_1arity(Operator::neg());
    w.add_2arity(Operator::imp(), Variable::new('C').wff());
    let rpn = w.rpn();
    let pn = w.pn();
    let reversed: String = rpn.chars().rev().collect();
    assert_eq!(pn, reversed);
    assert_eq!(rpn.as_str(), "AB∨¬C→");
    assert_eq!(pn.as_str(), "→C¬∨BA");
}

#[test]
fn test_operator_factories() {
    assert_eq!(Operator::neg().symbol(), '¬');
    assert_eq!(Operator::neg().arity(), 1);
    assert_eq!(Operator::or().symbol(), '∨');
    assert_eq!(Operator::or().arity(), 2);
    assert_eq!(Operator::and().symbol(), '∧');
    assert_eq!(Operator::and().arity(), 2);
    assert_eq!(Operator::imp().symbol(), '→');
    assert_eq!(Operator::imp().arity(), 2);
    let custom = Operator::new('!', 1);
    assert_eq!(custom.symbol(), '!');
    assert_eq!(custom.arity(), 1);
}

#[test]
fn test_variable_symbol() {
    let v = Variable::new('X');
    assert_eq!(v.symbol(), 'X');
}

#[test]
fn test_new_keeps_the_sequence() {
    let mut w = Variable::new('A').wff();
    w.add_2arity(Operator::and(), Variable::new('B').wff());
    let copy = Wff::new(w);
    assert_eq!(copy.rpn().as_str(), "AB∧");
    assert_eq!(copy.pn().as_str(), "∧BA");
}

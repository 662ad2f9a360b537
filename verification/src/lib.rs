//! Propositional-logic well-formed formulas (WFFs) built from variables and
//! connectives, stored in postfix order and rendered in reverse Polish
//! (postfix) and Polish (prefix) notation.

use vstd::prelude::*;

verus! {

/// A connective: a display symbol together with the number of operands it
/// consumes (1 for negation, 2 for the binary connectives).
#[derive(Copy, Clone)]
pub struct Operator {
    pub symbol: char,
    pub arity: usize,
}

impl Operator {
    pub fn new(symbol: char, arity: usize) -> (op: Operator)
        ensures
            op.symbol == symbol,
            op.arity == arity,
    {
        Operator { symbol, arity }
    }

    /// Negation: unary, printed ¬.
    pub fn neg() -> (op: Operator)
        ensures
            op.symbol == '¬',
            op.arity == 1,
    {
        Operator::new('¬', 1)
    }

    /// Disjunction: binary, printed ∨.
    pub fn or() -> (op: Operator)
        ensures
            op.symbol == '∨',
            op.arity == 2,
    {
        Operator::new('∨', 2)
    }

    /// Conjunction: binary, printed ∧.
    pub fn and() -> (op: Operator)
        ensures
            op.symbol == '∧',
            op.arity == 2,
    {
        Operator::new('∧', 2)
    }

    /// Implication: binary, printed →.
    pub fn imp() -> (op: Operator)
        ensures
            op.symbol == '→',
            op.arity == 2,
    {
        Operator::new('→', 2)
    }

    pub fn arity(&self) -> (a: usize)
        ensures
            a == self.arity,
    {
        self.arity
    }

    pub fn symbol(&self) -> (s: char)
        ensures
            s == self.symbol,
    {
        self.symbol
    }
}

/// An atomic proposition: a single display symbol, arity 0.
#[derive(Copy, Clone)]
pub struct Variable {
    pub symbol: char,
}

impl Variable {
    pub fn new(symbol: char) -> (v: Variable)
        ensures
            v.symbol == symbol,
    {
        Variable { symbol }
    }

    /// Wraps the variable as a one-element formula, the base case of
    /// composition.
    pub fn wff(&self) -> (w: Wff)
        ensures
            w@ == seq![Element::Variable(*self)],
    {
        Wff::new_variable(*self)
    }

    pub fn symbol(&self) -> (s: char)
        ensures
            s == self.symbol,
    {
        self.symbol
    }
}

/// One entry of a formula's postfix sequence: either an atomic proposition or
/// a connective.
#[derive(Copy, Clone)]
pub enum Element {
    Variable(Variable),
    Operator(Operator),
}

impl Element {
    /// The display symbol of this entry.
    pub open spec fn spec_symbol(&self) -> char {
        match self {
            Element::Variable(v) => v.symbol,
            Element::Operator(op) => op.symbol,
        }
    }

    #[verifier::when_used_as_spec(spec_symbol)]
    pub fn symbol(&self) -> (s: char)
        ensures
            s == self.spec_symbol(),
    {
        match self {
            Element::Variable(v) => v.symbol,
            Element::Operator(op) => op.symbol,
        }
    }
}

/// A well-formed formula, stored as the sequence of its elements in the order
/// that reads as reverse Polish (postfix) notation.
pub struct Wff {
    formula: Vec<Element>,
}

impl View for Wff {
    type V = Seq<Element>;

    closed spec fn view(&self) -> Seq<Element> {
        self.formula@
    }
}

impl Wff {
    /// The formula's symbols in storage (postfix) order.
    pub open spec fn symbols(self) -> Seq<char> {
        self@.map_values(|e: Element| e.spec_symbol())
    }

    /// A one-element formula holding just the given variable.
    pub fn new_variable(element: Variable) -> (w: Wff)
        ensures
            w@ == seq![Element::Variable(element)],
            w.symbols() == seq![element.symbol],
    {
        let mut formula: Vec<Element> = Vec::new();
        formula.push(Element::Variable(element));
        let w = Wff { formula };
        proof {
            assert(w@ =~= seq![Element::Variable(element)]);
            assert(w.symbols() =~= seq![element.symbol]);
        }
        w
    }

    /// A new formula with the same element sequence, consuming the given one;
    /// used to start a fresh composition chain from an existing formula.
    pub fn new(wff: Wff) -> (w: Wff)
        ensures
            w@ == wff@,
    {
        let ghost orig = wff@;
        let mut wff = wff;
        let mut formula: Vec<Element> = Vec::new();
        formula.append(&mut wff.formula);
        let w = Wff { formula };
        proof {
            assert(w@ =~= orig);
        }
        w
    }

    /// Applies a unary operator to the formula built so far by appending its
    /// symbol: the element sequence grows by exactly that one element.
    pub fn add_1arity(&mut self, operator: Operator)
        requires
            operator.arity == 1,
        ensures
            final(self)@ == old(self)@.push(Element::Operator(operator)),
            final(self).symbols() == old(self).symbols().push(operator.symbol),
            final(self)@.len() == old(self)@.len() + 1,
            final(self).symbols().last() == operator.symbol,
    {
        self.formula.push(Element::Operator(operator));
        proof {
            assert(self.symbols() =~= old(self).symbols().push(operator.symbol));
        }
    }

    /// Combines the receiver and `wff` with a binary operator: appends all of
    /// `wff`'s elements, then the operator's symbol, consuming `wff`. The
    /// result of combining formulas of lengths m and n always has length
    /// m + n + 1.
    pub fn add_2arity(&mut self, operator: Operator, wff: Wff)
        requires
            operator.arity == 2,
        ensures
            final(self)@ == old(self)@ + wff@ + seq![Element::Operator(operator)],
            final(self).symbols() == old(self).symbols() + wff.symbols()
                + seq![operator.symbol],
            final(self)@.len() == old(self)@.len() + wff@.len() + 1,
    {
        let ghost orig = wff@;
        let mut wff = wff;
        self.formula.append(&mut wff.formula);
        self.formula.push(Element::Operator(operator));
        proof {
            assert(self@ =~= old(self)@ + orig + seq![Element::Operator(operator)]);
            assert(self.symbols() =~= old(self).symbols()
                + orig.map_values(|e: Element| e.spec_symbol()) + seq![operator.symbol]);
        }
    }

    /// Renders the formula in reverse Polish (postfix) notation: the symbols
    /// in storage order.
    pub fn rpn(&self) -> (r: String)
        ensures
            r@ == self.symbols(),
    {
        let mut r = String::new();
        let mut i: usize = 0;
        while i < self.formula.len()
            invariant
                i <= self.formula.len(),
                r@ == self.symbols().subrange(0, i as int),
            decreases self.formula.len() - i,
        {
            let c = self.formula[i].symbol();
            r.push(c);
            i = i + 1;
            proof {
                assert(r@ =~= self.symbols().subrange(0, i as int));
            }
        }
        proof {
            assert(self.symbols().subrange(0, self@.len() as int) =~= self.symbols());
        }
        r
    }

    /// Renders the formula in Polish (prefix) notation: the symbols in reverse
    /// storage order, the exact character-reverse of the postfix rendering.
    pub fn pn(&self) -> (r: String)
        ensures
            r@ == self.symbols().reverse(),
    {
        let mut r = String::new();
        let mut i: usize = self.formula.len();
        while i > 0
            invariant
                i <= self.formula.len(),
                r@ == self.symbols().subrange(i as int, self@.len() as int).reverse(),
            decreases i,
        {
            i = i - 1;
            let c = self.formula[i].symbol();
            r.push(c);
            proof {
                assert(r@ =~= self.symbols().subrange(i as int, self@.len() as int)
                    .reverse());
            }
        }
        proof {
            assert(self.symbols().subrange(0, self@.len() as int) =~= self.symbols());
        }
        r
    }
}

/// Law: a formula made of a single variable renders, in reverse Polish
/// notation, as exactly that variable's one symbol.
pub proof fn lemma_variable_rpn(v: Variable, w: Wff)
    requires
        w@ == seq![Element::Variable(v)],
    ensures
        w.symbols() == seq![v.symbol],
{
    assert(w.symbols() =~= seq![v.symbol]);
}

/// Law: combining two single-variable formulas with a binary operator yields
/// exactly three elements, whose symbols read, in reverse Polish notation, as
/// the left variable's, the right variable's, then the operator's symbol.
pub proof fn lemma_binary_of_variables(x: Variable, y: Variable, op: Operator, w: Wff)
    requires
        op.arity == 2,
        w@ == seq![Element::Variable(x)] + seq![Element::Variable(y)]
            + seq![Element::Operator(op)],
    ensures
        w@.len() == 3,
        w.symbols() == seq![x.symbol, y.symbol, op.symbol],
{
    assert(w.symbols() =~= seq![x.symbol, y.symbol, op.symbol]);
}

/// Law: the Polish rendering is the exact character-reverse of the reverse
/// Polish rendering: both have the formula's length, and the character at
/// each position of one is the character at the mirrored position of the
/// other.
pub proof fn lemma_pn_reverses_rpn(w: Wff, r: Seq<char>, p: Seq<char>)
    requires
        r == w.symbols(),
        p == w.symbols().reverse(),
    ensures
        p.len() == r.len(),
        forall|j: int| 0 <= j < r.len() ==> p[j] == r[r.len() - 1 - j],
{
}

/// Relies on String::push of std, which vstd leaves unspecified: it appends
/// the given character to the end of the string.
pub assume_specification[ String::push ](s: &mut String, ch: char)
    ensures
        final(s)@ == old(s)@.push(ch),
;

} // verus!

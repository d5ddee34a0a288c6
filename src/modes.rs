//! Derivation-control vocabularies (`block`, `final` and their schema-wide
//! defaults): whitespace-separated lists of fixed words, or `#all`.
use vstd::prelude::*;

use crate::dom::{attr_value, attribute, XmlElement};
use crate::error::{SchemaError, SchemaErrorView};
use crate::text::{split_tokens, str_eq, string_views, tokens};

verus! {

/// A fixed vocabulary of derivation words.
pub trait Vocabulary: Sized + Copy {
    /// The word `w` stands for, if it is one of the vocabulary.
    spec fn spec_word(w: Seq<char>) -> Option<Self>;

    /// What `#all` stands for.
    spec fn spec_all() -> Seq<Self>;

    fn word(w: &str) -> (r: Option<Self>)
        ensures
            r == Self::spec_word(w@),
    ;

    fn all() -> (r: Vec<Self>)
        ensures
            r@ == Self::spec_all(),
    ;

    fn same(&self, o: &Self) -> (r: bool)
        ensures
            r == (*self == *o),
    ;
}

/// `acc` with `m` added, unless it holds it already.
pub open spec fn add_mode<M>(acc: Seq<M>, m: M) -> Seq<M> {
    if acc.contains(m) {
        acc
    } else {
        acc.push(m)
    }
}

/// `acc` with each of `ms` added in turn.
pub open spec fn add_modes<M>(acc: Seq<M>, ms: Seq<M>) -> Seq<M>
    decreases ms.len(),
{
    if ms.len() == 0 {
        acc
    } else {
        add_mode(add_modes(acc, ms.drop_last()), ms.last())
    }
}

/// The modes named by the first `n` tokens of `ts`, without repetition and in
/// the order first named; or the first token outside the vocabulary.
pub open spec fn modes_upto<M: Vocabulary>(ts: Seq<Seq<char>>, n: int) -> Result<Seq<M>, Seq<char>>
    decreases n,
{
    if n <= 0 {
        Ok(Seq::empty())
    } else {
        match modes_upto::<M>(ts, n - 1) {
            Err(t) => Err(t),
            Ok(acc) => if ts[n - 1] == "#all"@ {
                Ok(add_modes(acc, M::spec_all()))
            } else {
                match M::spec_word(ts[n - 1]) {
                    Some(m) => Ok(add_mode(acc, m)),
                    None => Err(ts[n - 1]),
                }
            },
        }
    }
}

/// The modes an optional list attribute names: none when it is absent.
pub open spec fn modes_of<M: Vocabulary>(v: Option<Seq<char>>) -> Result<Seq<M>, Seq<char>> {
    match v {
        None => Ok(Seq::empty()),
        Some(s) => modes_upto::<M>(tokens(s), tokens(s).len() as int),
    }
}

/// The result of reading the list attribute `attr` of `e`.
pub open spec fn modes_result<M: Vocabulary>(e: XmlElement, attr: Seq<char>) -> Result<
    Seq<M>,
    SchemaErrorView,
> {
    match modes_of::<M>(attr_value(e, attr)) {
        Ok(ms) => Ok(ms),
        Err(t) => Err(SchemaErrorView::UnknownFacet { element: e.name.local_part@, token: t }),
    }
}

fn push_mode<M: Vocabulary>(acc: &mut Vec<M>, m: M)
    ensures
        final(acc)@ == add_mode(old(acc)@, m),
{
    let mut i: usize = 0;
    while i < acc.len()
        invariant
            i <= acc.len(),
            forall|j: int| 0 <= j < i ==> acc@[j] != m,
        decreases acc.len() - i,
    {
        if acc[i].same(&m) {
            assert(acc@.contains(m));
            return;
        }
        i += 1;
    }
    assert(!acc@.contains(m));
    acc.push(m);
}

/// Reads the whitespace-separated list attribute `attr` of `element` against
/// the vocabulary `M`; a token outside it is an `UnknownFacet` error.
pub fn parse_modes<M: Vocabulary>(element: &XmlElement, attr: &str) -> (r: Result<Vec<M>, SchemaError>)
    ensures
        match r {
            Ok(ms) => modes_result::<M>(*element, attr@) == Ok::<Seq<M>, SchemaErrorView>(ms@),
            Err(e) => modes_result::<M>(*element, attr@) == Err::<Seq<M>, SchemaErrorView>(e@),
        },
{
    let mut acc: Vec<M> = Vec::new();
    let value = match attribute(element, attr) {
        Some(v) => v,
        None => {
            return Ok(acc);
        },
    };
    let ts = split_tokens(value.as_str());
    let ghost tv = tokens(value@);
    assert(string_views(ts@) == tv);
    let mut i: usize = 0;
    while i < ts.len()
        invariant
            i <= ts.len(),
            string_views(ts@) == tv,
            tv == tokens(value@),
            attr_value(*element, attr@) == Some(value@),
            modes_upto::<M>(tv, i as int) == Ok::<Seq<M>, Seq<char>>(acc@),
        decreases ts.len() - i,
    {
        assert(ts@[i as int]@ == tv[i as int]);
        if str_eq(ts[i].as_str(), "#all") {
            let all = M::all();
            let mut k: usize = 0;
            while k < all.len()
                invariant
                    k <= all.len(),
                    all@ == M::spec_all(),
                    acc@ == add_modes(modes_read(tv, i as int), all@.take(k as int)),
                    modes_upto::<M>(tv, i as int) == Ok::<Seq<M>, Seq<char>>(modes_read(tv, i as int)),
                decreases all.len() - k,
            {
                assert(all@.take(k + 1).drop_last() =~= all@.take(k as int));
                push_mode(&mut acc, all[k]);
                k += 1;
            }
            assert(all@.take(k as int) =~= all@);
        } else {
            match M::word(ts[i].as_str()) {
                Some(m) => {
                    push_mode(&mut acc, m);
                },
                None => {
                    proof {
                        lemma_modes_err_stays::<M>(tv, i as int + 1, tv.len() as int);
                    }
                    return Err(
                        SchemaError::UnknownFacet {
                            element: element.name.local_part.clone(),
                            token: ts[i].clone(),
                        },
                    );
                },
            }
        }
        i += 1;
    }
    Ok(acc)
}

/// The modes read from the first `n` tokens, when that succeeds.
pub open spec fn modes_read<M: Vocabulary>(ts: Seq<Seq<char>>, n: int) -> Seq<M> {
    modes_upto::<M>(ts, n)->Ok_0
}

proof fn lemma_modes_err_stays<M: Vocabulary>(ts: Seq<Seq<char>>, n: int, m: int)
    requires
        1 <= n <= m,
        modes_upto::<M>(ts, n) is Err,
    ensures
        modes_upto::<M>(ts, m) == modes_upto::<M>(ts, n),
    decreases m - n,
{
    if m > n {
        lemma_modes_err_stays::<M>(ts, n, m - 1);
    }
}

/// The derivations a simple type's `final` attribute can forbid.
#[derive(Debug, PartialEq, Eq, Clone, Copy)]
pub enum SimpleFinal {
    Extension,
    Restriction,
    List,
    Union,
}

impl Vocabulary for SimpleFinal {
    open spec fn spec_word(w: Seq<char>) -> Option<SimpleFinal> {
        if w == "extension"@ {
            Some(SimpleFinal::Extension)
        } else if w == "restriction"@ {
            Some(SimpleFinal::Restriction)
        } else if w == "list"@ {
            Some(SimpleFinal::List)
        } else if w == "union"@ {
            Some(SimpleFinal::Union)
        } else {
            None
        }
    }

    open spec fn spec_all() -> Seq<SimpleFinal> {
        seq![SimpleFinal::Extension, SimpleFinal::Restriction, SimpleFinal::List, SimpleFinal::Union]
    }

    fn word(w: &str) -> (r: Option<SimpleFinal>) {
        if str_eq(w, "extension") {
            Some(SimpleFinal::Extension)
        } else if str_eq(w, "restriction") {
            Some(SimpleFinal::Restriction)
        } else if str_eq(w, "list") {
            Some(SimpleFinal::List)
        } else if str_eq(w, "union") {
            Some(SimpleFinal::Union)
        } else {
            None
        }
    }

    fn all() -> (r: Vec<SimpleFinal>) {
        let r = vec![SimpleFinal::Extension, SimpleFinal::Restriction, SimpleFinal::List, SimpleFinal::Union];
        assert(r@ =~= Self::spec_all());
        r
    }

    fn same(&self, o: &SimpleFinal) -> (r: bool) {
        match (self, o) {
            (SimpleFinal::Extension, SimpleFinal::Extension) => true,
            (SimpleFinal::Restriction, SimpleFinal::Restriction) => true,
            (SimpleFinal::List, SimpleFinal::List) => true,
            (SimpleFinal::Union, SimpleFinal::Union) => true,
            _ => false,
        }
    }
}

/// The derivations a complex type's `final` attribute can forbid.
#[derive(Debug, PartialEq, Eq, Clone, Copy)]
pub enum ComplexFinal {
    Extension,
    Restriction,
}

impl Vocabulary for ComplexFinal {
    open spec fn spec_word(w: Seq<char>) -> Option<ComplexFinal> {
        if w == "extension"@ {
            Some(ComplexFinal::Extension)
        } else if w == "restriction"@ {
            Some(ComplexFinal::Restriction)
        } else {
            None
        }
    }

    open spec fn spec_all() -> Seq<ComplexFinal> {
        seq![ComplexFinal::Extension, ComplexFinal::Restriction]
    }

    fn word(w: &str) -> (r: Option<ComplexFinal>) {
        if str_eq(w, "extension") {
            Some(ComplexFinal::Extension)
        } else if str_eq(w, "restriction") {
            Some(ComplexFinal::Restriction)
        } else {
            None
        }
    }

    fn all() -> (r: Vec<ComplexFinal>) {
        let r = vec![ComplexFinal::Extension, ComplexFinal::Restriction];
        assert(r@ =~= Self::spec_all());
        r
    }

    fn same(&self, o: &ComplexFinal) -> (r: bool) {
        match (self, o) {
            (ComplexFinal::Extension, ComplexFinal::Extension) => true,
            (ComplexFinal::Restriction, ComplexFinal::Restriction) => true,
            _ => false,
        }
    }
}

/// The derivations a complex type's `block` attribute can block.
#[derive(Debug, PartialEq, Eq, Clone, Copy)]
pub enum ComplexBlock {
    Extension,
    Restriction,
}

impl Vocabulary for ComplexBlock {
    open spec fn spec_word(w: Seq<char>) -> Option<ComplexBlock> {
        if w == "extension"@ {
            Some(ComplexBlock::Extension)
        } else if w == "restriction"@ {
            Some(ComplexBlock::Restriction)
        } else {
            None
        }
    }

    open spec fn spec_all() -> Seq<ComplexBlock> {
        seq![ComplexBlock::Extension, ComplexBlock::Restriction]
    }

    fn word(w: &str) -> (r: Option<ComplexBlock>) {
        if str_eq(w, "extension") {
            Some(ComplexBlock::Extension)
        } else if str_eq(w, "restriction") {
            Some(ComplexBlock::Restriction)
        } else {
            None
        }
    }

    fn all() -> (r: Vec<ComplexBlock>) {
        let r = vec![ComplexBlock::Extension, ComplexBlock::Restriction];
        assert(r@ =~= Self::spec_all());
        r
    }

    fn same(&self, o: &ComplexBlock) -> (r: bool) {
        match (self, o) {
            (ComplexBlock::Extension, ComplexBlock::Extension) => true,
            (ComplexBlock::Restriction, ComplexBlock::Restriction) => true,
            _ => false,
        }
    }
}

/// The derivations a schema's `blockDefault` attribute can block.
#[derive(Debug, PartialEq, Eq, Clone, Copy)]
pub enum BlockDefault {
    Extension,
    Restriction,
    Substitution,
}

impl Vocabulary for BlockDefault {
    open spec fn spec_word(w: Seq<char>) -> Option<BlockDefault> {
        if w == "extension"@ {
            Some(BlockDefault::Extension)
        } else if w == "restriction"@ {
            Some(BlockDefault::Restriction)
        } else if w == "substitution"@ {
            Some(BlockDefault::Substitution)
        } else {
            None
        }
    }

    open spec fn spec_all() -> Seq<BlockDefault> {
        seq![BlockDefault::Extension, BlockDefault::Restriction, BlockDefault::Substitution]
    }

    fn word(w: &str) -> (r: Option<BlockDefault>) {
        if str_eq(w, "extension") {
            Some(BlockDefault::Extension)
        } else if str_eq(w, "restriction") {
            Some(BlockDefault::Restriction)
        } else if str_eq(w, "substitution") {
            Some(BlockDefault::Substitution)
        } else {
            None
        }
    }

    fn all() -> (r: Vec<BlockDefault>) {
        let r = vec![BlockDefault::Extension, BlockDefault::Restriction, BlockDefault::Substitution];
        assert(r@ =~= Self::spec_all());
        r
    }

    fn same(&self, o: &BlockDefault) -> (r: bool) {
        match (self, o) {
            (BlockDefault::Extension, BlockDefault::Extension) => true,
            (BlockDefault::Restriction, BlockDefault::Restriction) => true,
            (BlockDefault::Substitution, BlockDefault::Substitution) => true,
            _ => false,
        }
    }
}

/// The derivations a schema's `finalDefault` attribute can forbid.
#[derive(Debug, PartialEq, Eq, Clone, Copy)]
pub enum FinalDefault {
    Extension,
    Restriction,
    List,
    Union,
}

impl Vocabulary for FinalDefault {
    open spec fn spec_word(w: Seq<char>) -> Option<FinalDefault> {
        if w == "extension"@ {
            Some(FinalDefault::Extension)
        } else if w == "restriction"@ {
            Some(FinalDefault::Restriction)
        } else if w == "list"@ {
            Some(FinalDefault::List)
        } else if w == "union"@ {
            Some(FinalDefault::Union)
        } else {
            None
        }
    }

    open spec fn spec_all() -> Seq<FinalDefault> {
        seq![FinalDefault::Extension, FinalDefault::Restriction, FinalDefault::List, FinalDefault::Union]
    }

    fn word(w: &str) -> (r: Option<FinalDefault>) {
        if str_eq(w, "extension") {
            Some(FinalDefault::Extension)
        } else if str_eq(w, "restriction") {
            Some(FinalDefault::Restriction)
        } else if str_eq(w, "list") {
            Some(FinalDefault::List)
        } else if str_eq(w, "union") {
            Some(FinalDefault::Union)
        } else {
            None
        }
    }

    fn all() -> (r: Vec<FinalDefault>) {
        let r = vec![FinalDefault::Extension, FinalDefault::Restriction, FinalDefault::List, FinalDefault::Union];
        assert(r@ =~= Self::spec_all());
        r
    }

    fn same(&self, o: &FinalDefault) -> (r: bool) {
        match (self, o) {
            (FinalDefault::Extension, FinalDefault::Extension) => true,
            (FinalDefault::Restriction, FinalDefault::Restriction) => true,
            (FinalDefault::List, FinalDefault::List) => true,
            (FinalDefault::Union, FinalDefault::Union) => true,
            _ => false,
        }
    }
}

} // verus!

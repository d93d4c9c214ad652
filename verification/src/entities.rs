//! Validated value types: a record number restricted to the open interval
//! `(0, 899)`, a non-empty name, a closed enumeration of category types and a
//! non-empty ordered collection of them, and the record aggregate built from
//! the three.

use vstd::prelude::*;

verus! {

/// A record number is accepted exactly when it lies strictly between 0 and 899.
pub open spec fn valid_number(n: u16) -> bool {
    0 < n < 899
}

/// A name is accepted exactly when it is non-empty.
pub open spec fn valid_name(s: Seq<char>) -> bool {
    s.len() > 0
}

/// The unique identity of a record, valid only in the open interval `(0, 899)`.
#[derive(Clone, Copy, PartialEq, Eq, Structural)]
pub struct PokemonNumber(u16);

impl View for PokemonNumber {
    type V = u16;

    closed spec fn view(&self) -> u16 {
        self.0
    }
}

impl PokemonNumber {
    /// Fallible constructor: succeeds exactly on numbers in the valid range,
    /// and keeps the raw value unchanged.
    pub fn try_from(n: u16) -> (r: Result<Self, ()>)
        ensures
            r is Ok <==> valid_number(n),
            r matches Ok(v) ==> v@ == n,
    {
        if n > 0 && n < 899 {
            Ok(PokemonNumber(n))
        } else {
            Err(())
        }
    }

    /// The raw number this validated value was built from.
    pub fn value(self) -> (r: u16)
        ensures
            r == self@,
    {
        self.0
    }

    /// A well-known valid number, handy for exercising the library.
    pub fn pikachu() -> (r: Self)
        ensures
            r@ == 25,
    {
        PokemonNumber(25)
    }

    /// A number outside the valid range, handy for exercising rejection paths.
    pub fn bad() -> (r: Self)
        ensures
            r@ == 0,
    {
        PokemonNumber(0)
    }
}

/// The name of a record: any non-empty text.
pub struct PokemonName(String);

impl View for PokemonName {
    type V = Seq<char>;

    closed spec fn view(&self) -> Seq<char> {
        self.0@
    }
}

impl PokemonName {
    /// Fallible constructor: succeeds exactly on non-empty text, and keeps
    /// the raw text unchanged.
    pub fn try_from(n: String) -> (r: Result<Self, ()>)
        ensures
            r is Ok <==> valid_name(n@),
            r matches Ok(v) ==> v@ == n@,
    {
        if n.as_str().is_empty() {
            Err(())
        } else {
            Ok(PokemonName(n))
        }
    }

    /// The raw text this validated value was built from.
    pub fn into_raw(self) -> (r: String)
        ensures
            r@ == self@,
    {
        self.0
    }

    /// An equal copy of this name.
    pub fn duplicate(&self) -> (r: Self)
        ensures
            r@ == self@,
    {
        PokemonName(self.0.clone())
    }

    /// A well-known name, handy for exercising the library.
    pub fn pikachu() -> (r: Self)
        ensures
            r@ == "Pikachu"@,
    {
        PokemonName("Pikachu".to_owned())
    }
}

/// The closed enumeration of category types a record may carry.
#[derive(Clone, Copy, PartialEq, Eq, Structural)]
pub enum PokemonType {
    Electric,
    Fire,
}

/// Whether `s` is the canonical label of some category type (exact,
/// case-sensitive match).
pub open spec fn is_type_label(s: Seq<char>) -> bool {
    s == "Electric"@ || s == "Fire"@
}

/// The category type whose canonical label is `s` (meaningful only when
/// `is_type_label(s)` holds).
pub open spec fn type_of_label(s: Seq<char>) -> PokemonType {
    if s == "Electric"@ {
        PokemonType::Electric
    } else {
        PokemonType::Fire
    }
}

/// The canonical label of a category type.
pub open spec fn label_of_type(t: PokemonType) -> Seq<char> {
    match t {
        PokemonType::Electric => "Electric"@,
        PokemonType::Fire => "Fire"@,
    }
}

/// A raw collection of texts is accepted exactly when it is non-empty and
/// every element is a canonical label.
pub open spec fn valid_raw_types(ts: Seq<Seq<char>>) -> bool {
    &&& ts.len() > 0
    &&& forall|i: int| 0 <= i < ts.len() ==> is_type_label(#[trigger] ts[i])
}

/// The category types named by a raw collection of labels, in order.
pub open spec fn types_of_raw(ts: Seq<Seq<char>>) -> Seq<PokemonType> {
    ts.map_values(|s: Seq<char>| type_of_label(s))
}

/// The canonical labels of a collection of category types, in order.
pub open spec fn raw_of_types(ts: Seq<PokemonType>) -> Seq<Seq<char>> {
    ts.map_values(|t: PokemonType| label_of_type(t))
}

/// Mapping a canonical label to its category type and back returns the label.
pub proof fn lemma_label_round_trip(s: Seq<char>)
    requires
        is_type_label(s),
    ensures
        label_of_type(type_of_label(s)) == s,
{
}

/// Raw-to-validated-to-raw round trip: a collection of labels that validates
/// comes back from the validated form exactly as it went in, order included.
pub proof fn lemma_types_round_trip(ts: Seq<Seq<char>>)
    requires
        valid_raw_types(ts),
    ensures
        raw_of_types(types_of_raw(ts)) == ts,
{
    assert forall|i: int| 0 <= i < ts.len() implies raw_of_types(types_of_raw(ts))[i]
        == ts[i] by {
        lemma_label_round_trip(ts[i]);
    }
    assert(raw_of_types(types_of_raw(ts)) =~= ts);
}

impl PokemonType {
    /// Fallible constructor: succeeds exactly when the text is a canonical
    /// label, yielding the type it names.
    pub fn try_from(t: String) -> (r: Result<Self, ()>)
        ensures
            r is Ok <==> is_type_label(t@),
            r matches Ok(v) ==> v == type_of_label(t@),
    {
        if t == "Electric".to_owned() {
            Ok(PokemonType::Electric)
        } else if t == "Fire".to_owned() {
            Ok(PokemonType::Fire)
        } else {
            Err(())
        }
    }

    /// The canonical label of this category type.
    pub fn into_raw(self) -> (r: String)
        ensures
            r@ == label_of_type(self),
    {
        match self {
            PokemonType::Electric => "Electric".to_owned(),
            PokemonType::Fire => "Fire".to_owned(),
        }
    }
}

/// A non-empty ordered collection of category types; duplicates are allowed
/// and order is preserved.
pub struct PokemonTypes(Vec<PokemonType>);

impl View for PokemonTypes {
    type V = Seq<PokemonType>;

    closed spec fn view(&self) -> Seq<PokemonType> {
        self.0@
    }
}

impl PokemonTypes {
    /// Fallible constructor: succeeds exactly when the raw collection is
    /// non-empty and every element is a canonical label; the first invalid
    /// element aborts the whole construction.
    pub fn try_from(ts: Vec<String>) -> (r: Result<Self, ()>)
        ensures
            r is Ok <==> valid_raw_types(ts.deep_view()),
            r matches Ok(v) ==> v@ == types_of_raw(ts.deep_view()),
    {
        if ts.len() == 0 {
            return Err(());
        }
        let ghost raw: Seq<Seq<char>> = ts.deep_view();
        let mut pts: Vec<PokemonType> = Vec::new();
        let mut i: usize = 0;
        while i < ts.len()
            invariant
                0 <= i <= ts.len(),
                raw == ts.deep_view(),
                raw.len() == ts.len(),
                forall|j: int| 0 <= j < i ==> is_type_label(#[trigger] raw[j]),
                pts@ == types_of_raw(raw.take(i as int)),
            decreases ts.len() - i,
        {
            assert(raw[i as int] == ts[i as int]@);
            match PokemonType::try_from(ts[i].clone()) {
                Ok(pt) => {
                    pts.push(pt);
                    assert(pts@ =~= types_of_raw(raw.take(i + 1)));
                },
                _ => {
                    return Err(());
                },
            }
            i = i + 1;
        }
        assert(raw.take(ts.len() as int) =~= raw);
        Ok(PokemonTypes(pts))
    }

    /// The raw labels this validated collection was built from, in order.
    pub fn into_raw(self) -> (r: Vec<String>)
        ensures
            r.deep_view() == raw_of_types(self@),
    {
        let mut out: Vec<String> = Vec::new();
        let mut i: usize = 0;
        while i < self.0.len()
            invariant
                0 <= i <= self.0.len(),
                out@.len() == i,
                forall|j: int| 0 <= j < i ==> (#[trigger] out@[j])@ == label_of_type(self@[j]),
            decreases self.0.len() - i,
        {
            out.push(self.0[i].into_raw());
            i = i + 1;
        }
        assert(out.deep_view() =~~= raw_of_types(self@));
        out
    }

    /// An equal copy of this collection.
    pub fn duplicate(&self) -> (r: Self)
        ensures
            r@ == self@,
    {
        let mut v: Vec<PokemonType> = Vec::new();
        let mut i: usize = 0;
        while i < self.0.len()
            invariant
                0 <= i <= self.0.len(),
                v@ == self@.take(i as int),
            decreases self.0.len() - i,
        {
            v.push(self.0[i]);
            assert(v@ =~= self@.take(i + 1));
            i = i + 1;
        }
        assert(self@.take(self.0.len() as int) =~= self@);
        PokemonTypes(v)
    }

    /// A well-known collection of one category type, handy for exercising
    /// the library.
    pub fn pikachu() -> (r: Self)
        ensures
            r@ == seq![PokemonType::Electric],
    {
        let mut v: Vec<PokemonType> = Vec::new();
        v.push(PokemonType::Electric);
        assert(v@ =~= seq![PokemonType::Electric]);
        PokemonTypes(v)
    }
}

/// The mathematical value of a record: its number, the characters of its
/// name, and its ordered category types.
#[verifier::ext_equal]
pub ghost struct PokemonView {
    pub number: u16,
    pub name: Seq<char>,
    pub types: Seq<PokemonType>,
}

/// One stored entity: identity `number` with attributes `name` and `types`.
pub struct Pokemon {
    pub number: PokemonNumber,
    pub name: PokemonName,
    pub types: PokemonTypes,
}

impl View for Pokemon {
    type V = PokemonView;

    open spec fn view(&self) -> PokemonView {
        PokemonView { number: self.number@, name: self.name@, types: self.types@ }
    }
}

impl Pokemon {
    /// Builds the aggregate from its three validated parts, unchanged.
    pub fn new(number: PokemonNumber, name: PokemonName, types: PokemonTypes) -> (r: Self)
        ensures
            r@ == (PokemonView { number: number@, name: name@, types: types@ }),
    {
        Pokemon { number, name, types }
    }

    /// An equal copy of this record.
    pub fn duplicate(&self) -> (r: Self)
        ensures
            r@ == self@,
    {
        Pokemon {
            number: self.number,
            name: self.name.duplicate(),
            types: self.types.duplicate(),
        }
    }
}

} // verus!

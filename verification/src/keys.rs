//! The key registry: the fixed, ordered set of single-character keys that may
//! appear in an interaction token, and the one-shot key/value store that the
//! decoder extracts required fields from.

use vstd::prelude::*;
use vstd::string::*;

verus! {

/// A key of the token wire format.  Each key has a canonical one-character
/// textual form (the variant name) and a fixed registry order, given by
/// [`KeysToTemporalAction::all_keys`].
#[derive(PartialEq, Eq, Structural, Clone, Copy, Debug, Hash)]
pub enum KeysToTemporalAction {
    /// Temporal event type (Execute, Signal or Query)
    E,
    /// Workflow id
    W,
    /// Namespace
    N,
    /// Task queue
    T,
    /// Workflow tYpe, i.e. the workflow function name
    Y,
    /// Workflow Run id
    R,
    /// Signal name
    S,
    /// Query type
    Q,
    /// qUery args
    U,
}

/// The canonical one-character form of a key.
pub open spec fn key_char(k: KeysToTemporalAction) -> char {
    match k {
        KeysToTemporalAction::E => 'E',
        KeysToTemporalAction::W => 'W',
        KeysToTemporalAction::N => 'N',
        KeysToTemporalAction::T => 'T',
        KeysToTemporalAction::Y => 'Y',
        KeysToTemporalAction::R => 'R',
        KeysToTemporalAction::S => 'S',
        KeysToTemporalAction::Q => 'Q',
        KeysToTemporalAction::U => 'U',
    }
}

/// The key whose canonical form is `c`, if any.
pub open spec fn key_of_char(c: char) -> Option<KeysToTemporalAction> {
    if c == 'E' {
        Some(KeysToTemporalAction::E)
    } else if c == 'W' {
        Some(KeysToTemporalAction::W)
    } else if c == 'N' {
        Some(KeysToTemporalAction::N)
    } else if c == 'T' {
        Some(KeysToTemporalAction::T)
    } else if c == 'Y' {
        Some(KeysToTemporalAction::Y)
    } else if c == 'R' {
        Some(KeysToTemporalAction::R)
    } else if c == 'S' {
        Some(KeysToTemporalAction::S)
    } else if c == 'Q' {
        Some(KeysToTemporalAction::Q)
    } else if c == 'U' {
        Some(KeysToTemporalAction::U)
    } else {
        None
    }
}

/// The registry order: every key exactly once, in the order that the encoder
/// walks them.
pub open spec fn registry_order() -> Seq<KeysToTemporalAction> {
    seq![
        KeysToTemporalAction::E,
        KeysToTemporalAction::W,
        KeysToTemporalAction::N,
        KeysToTemporalAction::T,
        KeysToTemporalAction::Y,
        KeysToTemporalAction::R,
        KeysToTemporalAction::S,
        KeysToTemporalAction::Q,
        KeysToTemporalAction::U,
    ]
}

impl KeysToTemporalAction {
    /// The one-character textual form of this key, as a string slice.
    pub fn key_str(&self) -> (r: &'static str)
        ensures
            r@ == seq![key_char(*self)],
    {
        proof {
            reveal_strlit("E");
            reveal_strlit("W");
            reveal_strlit("N");
            reveal_strlit("T");
            reveal_strlit("Y");
            reveal_strlit("R");
            reveal_strlit("S");
            reveal_strlit("Q");
            reveal_strlit("U");
        }
        match self {
            KeysToTemporalAction::E => "E",
            KeysToTemporalAction::W => "W",
            KeysToTemporalAction::N => "N",
            KeysToTemporalAction::T => "T",
            KeysToTemporalAction::Y => "Y",
            KeysToTemporalAction::R => "R",
            KeysToTemporalAction::S => "S",
            KeysToTemporalAction::Q => "Q",
            KeysToTemporalAction::U => "U",
        }
    }

    /// The key whose one-character form is `c`, if `c` is a registry character.
    pub fn from_char(c: char) -> (r: Option<KeysToTemporalAction>)
        ensures
            r == key_of_char(c),
    {
        if c == 'E' {
            Some(KeysToTemporalAction::E)
        } else if c == 'W' {
            Some(KeysToTemporalAction::W)
        } else if c == 'N' {
            Some(KeysToTemporalAction::N)
        } else if c == 'T' {
            Some(KeysToTemporalAction::T)
        } else if c == 'Y' {
            Some(KeysToTemporalAction::Y)
        } else if c == 'R' {
            Some(KeysToTemporalAction::R)
        } else if c == 'S' {
            Some(KeysToTemporalAction::S)
        } else if c == 'Q' {
            Some(KeysToTemporalAction::Q)
        } else if c == 'U' {
            Some(KeysToTemporalAction::U)
        } else {
            None
        }
    }

    /// `"<key>:<value>"`: the wire form of one key/value pair.
    pub fn to_kv(&self, value: &str) -> (r: String)
        ensures
            r@ == seq![key_char(*self), ':'] + value@,
    {
        proof {
            reveal_strlit(":");
        }
        let mut s = self.key_str().to_owned();
        s.append(":");
        s.append(value);
        proof {
            assert(s@ =~= seq![key_char(*self), ':'] + value@);
        }
        s
    }

    /// Every key once, in registry order.
    pub fn all_keys() -> (r: Vec<KeysToTemporalAction>)
        ensures
            r@ == registry_order(),
    {
        let r = vec![
            KeysToTemporalAction::E,
            KeysToTemporalAction::W,
            KeysToTemporalAction::N,
            KeysToTemporalAction::T,
            KeysToTemporalAction::Y,
            KeysToTemporalAction::R,
            KeysToTemporalAction::S,
            KeysToTemporalAction::Q,
            KeysToTemporalAction::U,
        ];
        assert(r@ =~= registry_order());
        r
    }
}

/// Mathematical form of a [`KeyMap`]: what value, if any, each key holds.
#[verifier::ext_equal]
pub ghost struct KeyMapV {
    pub e: Option<Seq<char>>,
    pub w: Option<Seq<char>>,
    pub n: Option<Seq<char>>,
    pub t: Option<Seq<char>>,
    pub y: Option<Seq<char>>,
    pub r: Option<Seq<char>>,
    pub s: Option<Seq<char>>,
    pub q: Option<Seq<char>>,
    pub u: Option<Seq<char>>,
}

/// The key map that holds no value at all.
pub open spec fn kmv_empty() -> KeyMapV {
    KeyMapV {
        e: None,
        w: None,
        n: None,
        t: None,
        y: None,
        r: None,
        s: None,
        q: None,
        u: None,
    }
}

/// The value a key map holds for `k`.
pub open spec fn kmv_get(m: KeyMapV, k: KeysToTemporalAction) -> Option<Seq<char>> {
    match k {
        KeysToTemporalAction::E => m.e,
        KeysToTemporalAction::W => m.w,
        KeysToTemporalAction::N => m.n,
        KeysToTemporalAction::T => m.t,
        KeysToTemporalAction::Y => m.y,
        KeysToTemporalAction::R => m.r,
        KeysToTemporalAction::S => m.s,
        KeysToTemporalAction::Q => m.q,
        KeysToTemporalAction::U => m.u,
    }
}

/// `m` with `k` bound to `v`; an earlier binding of `k` is overwritten.
pub open spec fn kmv_insert(m: KeyMapV, k: KeysToTemporalAction, v: Seq<char>) -> KeyMapV {
    match k {
        KeysToTemporalAction::E => (KeyMapV { e: Some(v), ..m }),
        KeysToTemporalAction::W => (KeyMapV { w: Some(v), ..m }),
        KeysToTemporalAction::N => (KeyMapV { n: Some(v), ..m }),
        KeysToTemporalAction::T => (KeyMapV { t: Some(v), ..m }),
        KeysToTemporalAction::Y => (KeyMapV { y: Some(v), ..m }),
        KeysToTemporalAction::R => (KeyMapV { r: Some(v), ..m }),
        KeysToTemporalAction::S => (KeyMapV { s: Some(v), ..m }),
        KeysToTemporalAction::Q => (KeyMapV { q: Some(v), ..m }),
        KeysToTemporalAction::U => (KeyMapV { u: Some(v), ..m }),
    }
}

/// `m` without any binding for `k`.
pub open spec fn kmv_remove(m: KeyMapV, k: KeysToTemporalAction) -> KeyMapV {
    match k {
        KeysToTemporalAction::E => (KeyMapV { e: None, ..m }),
        KeysToTemporalAction::W => (KeyMapV { w: None, ..m }),
        KeysToTemporalAction::N => (KeyMapV { n: None, ..m }),
        KeysToTemporalAction::T => (KeyMapV { t: None, ..m }),
        KeysToTemporalAction::Y => (KeyMapV { y: None, ..m }),
        KeysToTemporalAction::R => (KeyMapV { r: None, ..m }),
        KeysToTemporalAction::S => (KeyMapV { s: None, ..m }),
        KeysToTemporalAction::Q => (KeyMapV { q: None, ..m }),
        KeysToTemporalAction::U => (KeyMapV { u: None, ..m }),
    }
}

/// The one-shot key/value store the decoder works from.  Each registry key
/// holds at most one value; reading a key through
/// [`KeysToTemporalAction::get_value`] consumes its entry.
pub struct KeyMap {
    pub e: Option<String>,
    pub w: Option<String>,
    pub n: Option<String>,
    pub t: Option<String>,
    pub y: Option<String>,
    pub r: Option<String>,
    pub s: Option<String>,
    pub q: Option<String>,
    pub u: Option<String>,
}

impl View for KeyMap {
    type V = KeyMapV;

    open spec fn view(&self) -> KeyMapV {
        KeyMapV {
            e: crate::descriptor::opt_view(self.e),
            w: crate::descriptor::opt_view(self.w),
            n: crate::descriptor::opt_view(self.n),
            t: crate::descriptor::opt_view(self.t),
            y: crate::descriptor::opt_view(self.y),
            r: crate::descriptor::opt_view(self.r),
            s: crate::descriptor::opt_view(self.s),
            q: crate::descriptor::opt_view(self.q),
            u: crate::descriptor::opt_view(self.u),
        }
    }
}

impl KeyMap {
    /// The store with no entry at all.
    pub fn new() -> (r: KeyMap)
        ensures
            r@ == kmv_empty(),
    {
        let r = KeyMap {
            e: None,
            w: None,
            n: None,
            t: None,
            y: None,
            r: None,
            s: None,
            q: None,
            u: None,
        };
        proof {
            assert(r@ =~= kmv_empty());
        }
        r
    }

    /// Bind `k` to `v`, overwriting an earlier binding of `k`.
    pub fn set(&mut self, k: KeysToTemporalAction, v: String)
        ensures
            final(self)@ == kmv_insert(old(self)@, k, v@),
    {
        let ghost m0 = self@;
        match k {
            KeysToTemporalAction::E => self.e = Some(v),
            KeysToTemporalAction::W => self.w = Some(v),
            KeysToTemporalAction::N => self.n = Some(v),
            KeysToTemporalAction::T => self.t = Some(v),
            KeysToTemporalAction::Y => self.y = Some(v),
            KeysToTemporalAction::R => self.r = Some(v),
            KeysToTemporalAction::S => self.s = Some(v),
            KeysToTemporalAction::Q => self.q = Some(v),
            KeysToTemporalAction::U => self.u = Some(v),
        }
    }
}

impl KeysToTemporalAction {
    /// Take this key's value out of `encoder_map`.  The entry is consumed:
    /// a second read of the same key fails like a key that was never there,
    /// which is the decoder's single-use extraction discipline.
    pub fn get_value(&self, encoder_map: &mut KeyMap) -> (r: Result<
        String,
        crate::codec::DecodeError,
    >)
        ensures
            match r {
                Ok(v) => kmv_get(old(encoder_map)@, *self) == Some(v@) && final(encoder_map)@
                    == kmv_remove(old(encoder_map)@, *self),
                Err(e) => kmv_get(old(encoder_map)@, *self) is None && final(encoder_map)@ == old(
                    encoder_map,
                )@ && e == crate::codec::DecodeError::KeyMissing(*self),
            },
    {
        let taken: Option<String> = match self {
            KeysToTemporalAction::E => encoder_map.e.take(),
            KeysToTemporalAction::W => encoder_map.w.take(),
            KeysToTemporalAction::N => encoder_map.n.take(),
            KeysToTemporalAction::T => encoder_map.t.take(),
            KeysToTemporalAction::Y => encoder_map.y.take(),
            KeysToTemporalAction::R => encoder_map.r.take(),
            KeysToTemporalAction::S => encoder_map.s.take(),
            KeysToTemporalAction::Q => encoder_map.q.take(),
            KeysToTemporalAction::U => encoder_map.u.take(),
        };
        match taken {
            Some(v) => Ok(v),
            None => Err(crate::codec::DecodeError::KeyMissing(*self)),
        }
    }
}

} // verus!

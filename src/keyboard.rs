use vstd::prelude::*;
use std::collections::HashMap;

verus! {

broadcast use vstd::std_specs::hash::group_hash_axioms;

/// The host keys, by upper-case ASCII code, that stand for the sixteen
/// keypad keys:
///
/// ```text
/// 1 2 3 4      1 2 3 C
/// Q W E R  ->  4 5 6 D
/// A S D F      7 8 9 E
/// Z X C V      A 0 B F
/// ```
pub open spec fn key_layout() -> Map<usize, u8> {
    map![
        49usize => 0x1u8, 50usize => 0x2u8, 51usize => 0x3u8, 52usize => 0xCu8,
        81usize => 0x4u8, 87usize => 0x5u8, 69usize => 0x6u8, 82usize => 0xDu8,
        65usize => 0x7u8, 83usize => 0x8u8, 68usize => 0x9u8, 70usize => 0xEu8,
        90usize => 0xAu8, 88usize => 0x0u8, 67usize => 0xBu8, 86usize => 0xFu8,
    ]
}

/// Binding of host key codes to keypad keys.
pub struct Keyboard(HashMap<usize, u8>);

impl View for Keyboard {
    type V = Map<usize, u8>;

    closed spec fn view(&self) -> Map<usize, u8> {
        self.0@
    }
}

impl Keyboard {
    /// Every binding names a keypad key.
    #[verifier::type_invariant]
    spec fn bindings_in_range(self) -> bool {
        forall|c: usize| self.0@.contains_key(c) ==> #[trigger] self.0@[c] < 16
    }
}

impl Default for Keyboard {
    /// The conventional layout, `key_layout`.
    fn default() -> (r: Keyboard)
        ensures
            r@ == key_layout(),
    {
        let mut keymap: HashMap<usize, u8> = HashMap::new();
        keymap.insert(49, 0x1);  // 1
        keymap.insert(50, 0x2);  // 2
        keymap.insert(51, 0x3);  // 3
        keymap.insert(52, 0xC);  // 4
        keymap.insert(81, 0x4);  // Q
        keymap.insert(87, 0x5);  // W
        keymap.insert(69, 0x6);  // E
        keymap.insert(82, 0xD);  // R
        keymap.insert(65, 0x7);  // A
        keymap.insert(83, 0x8);  // S
        keymap.insert(68, 0x9);  // D
        keymap.insert(70, 0xE);  // F
        keymap.insert(90, 0xA);  // Z
        keymap.insert(88, 0x0);  // X
        keymap.insert(67, 0xB);  // C
        keymap.insert(86, 0xF);  // V
        assert(keymap@ =~= key_layout());
        Keyboard(keymap)
    }
}

impl Keyboard {
    /// The keypad key bound to host key `code`, if any.
    pub fn lookup(&self, code: usize) -> (r: Option<u8>)
        ensures
            r == if self@.contains_key(code) {
                Some(self@[code])
            } else {
                None::<u8>
            },
    {
        match self.0.get(&code) {
            Some(k) => Some(*k),
            None => None,
        }
    }

    /// The keypad snapshot for the set of held host keys `held`: a keypad
    /// key is down when some held host key is bound to it.
    pub fn snapshot(&self, held: &Vec<usize>) -> (r: [bool; 16])
        ensures
            forall|k: int|
                0 <= k < 16 ==> r@[k] == exists|j: int|
                    0 <= j < held@.len() && self@.contains_key(held@[j]) && #[trigger] self@[held@[j]]
                        == k,
    {
        proof {
            use_type_invariant(self);
        }
        let mut keys = [false; 16];
        let mut j: usize = 0;
        while j < held.len()
            invariant
                j <= held@.len(),
                forall|c: usize| self@.contains_key(c) ==> #[trigger] self@[c] < 16,
                forall|k: int|
                    0 <= k < 16 ==> keys@[k] == exists|i: int|
                        0 <= i < j && self@.contains_key(held@[i]) && #[trigger] self@[held@[i]]
                            == k,
            decreases held@.len() - j,
        {
            if let Some(k) = self.lookup(held[j]) {
                keys[k as usize] = true;
            }
            proof {
                assert forall|k: int| 0 <= k < 16 implies keys@[k] == exists|i: int|
                    0 <= i < j + 1 && self@.contains_key(held@[i]) && #[trigger] self@[held@[i]]
                        == k by {
                    if self@.contains_key(held@[j as int]) && self@[held@[j as int]] == k {
                        assert(0 <= j < j + 1 && self@.contains_key(held@[j as int]));
                    }
                }
            }
            j = j + 1;
        }
        keys
    }
}

} // verus!

use vstd::prelude::*;

verus! {

/// The map that a list of (address, name) writes leaves behind: a later
/// write for an address replaces an earlier one.
pub open spec fn written_map(s: Seq<(Seq<char>, Seq<char>)>) -> Map<Seq<char>, Seq<char>>
    decreases s.len(),
{
    if s.len() == 0 {
        Map::empty()
    } else {
        written_map(s.drop_last()).insert(s.last().0, s.last().1)
    }
}

/// Looking a key up in `written_map` finds the last write for it.
proof fn lemma_last_write_wins(s: Seq<(Seq<char>, Seq<char>)>, k: Seq<char>, i: int)
    requires
        -1 <= i < s.len(),
        forall|j: int| i < j < s.len() ==> s[j].0 != k,
        0 <= i ==> s[i].0 == k,
    ensures
        i < 0 ==> !written_map(s).contains_key(k),
        0 <= i ==> written_map(s).contains_key(k) && written_map(s)[k] == s[i].1,
    decreases s.len(),
{
    if s.len() > 0 && i < s.len() - 1 {
        lemma_last_write_wins(s.drop_last(), k, i);
    }
}

/// Preferred names by address.
pub struct PreferredNames {
    writes: Vec<(String, String)>,
}

impl PreferredNames {
    pub closed spec fn writes_model(&self) -> Seq<(Seq<char>, Seq<char>)> {
        self.writes@.map_values(|w: (String, String)| (w.0@, w.1@))
    }
}

impl View for PreferredNames {
    type V = Map<Seq<char>, Seq<char>>;

    closed spec fn view(&self) -> Map<Seq<char>, Seq<char>> {
        written_map(self.writes_model())
    }
}

impl PreferredNames {
    pub fn new() -> (r: Self)
        ensures
            r@ == Map::<Seq<char>, Seq<char>>::empty(),
    {
        let r = PreferredNames { writes: Vec::new() };
        assert(r.writes_model() =~= Seq::<(Seq<char>, Seq<char>)>::empty());
        r
    }

    /// Stores `name` as the preferred name of `address`.
    pub fn set(&mut self, address: String, name: String)
        ensures
            final(self)@ == old(self)@.insert(address@, name@),
    {
        let ghost before = self.writes_model();
        let ghost entry = (address@, name@);
        self.writes.push((address, name));
        assert(self.writes_model() =~= before.push(entry));
        assert(self.writes_model().drop_last() =~= before);
    }

    /// The preferred name of `address`, if one was stored.
    pub fn get(&self, address: &String) -> (r: Option<&String>)
        ensures
            !self@.contains_key(address@) ==> r is None,
            self@.contains_key(address@) ==> (r matches Some(n) && n@ == self@[address@]),
    {
        let mut i: usize = self.writes.len();
        while i > 0
            invariant
                i <= self.writes@.len(),
                forall|j: int| i <= j < self.writes@.len() ==> self.writes_model()[j].0 != address@,
            decreases i,
        {
            i = i - 1;
            if self.writes[i].0.eq(address) {
                proof {
                    lemma_last_write_wins(self.writes_model(), address@, i as int);
                }
                return Some(&self.writes[i].1);
            }
        }
        proof {
            lemma_last_write_wins(self.writes_model(), address@, -1);
        }
        None
    }
}

} // verus!

use vstd::prelude::*;

pub mod tmdb;
pub mod tvmaze;

verus! {

/// The text of a query string: nothing for no pairs, else a `?` followed by
/// the `key=value` pairs joined with `&`, in the order they were added.
pub open spec fn query_pairs(keys: Seq<Seq<char>>, values: Seq<Seq<char>>) -> Seq<char>
    decreases keys.len(),
{
    if keys.len() == 0 {
        Seq::empty()
    } else if keys.len() == 1 {
        keys[0] + seq!['='] + values[0]
    } else {
        query_pairs(keys.drop_last(), values.drop_last()) + seq!['&'] + keys.last() + seq!['=']
            + values.last()
    }
}

pub open spec fn query_string(keys: Seq<Seq<char>>, values: Seq<Seq<char>>) -> Seq<char> {
    if keys.len() == 0 {
        Seq::empty()
    } else {
        seq!['?'] + query_pairs(keys, values)
    }
}

/// Collects `key=value` pairs and renders them as a URL query string.
pub struct QueryBuilder {
    keys: Vec<String>,
    values: Vec<String>,
}

impl QueryBuilder {
    pub closed spec fn spec_keys(self) -> Seq<Seq<char>> {
        self.keys.deep_view()
    }

    pub closed spec fn spec_values(self) -> Seq<Seq<char>> {
        self.values.deep_view()
    }

    /// As many keys as values: they are pushed only in pairs.
    pub closed spec fn wf(self) -> bool {
        self.keys.len() == self.values.len()
    }

    pub fn new() -> (q: Self)
        ensures
            q.wf(),
            q.spec_keys() =~= Seq::<Seq<char>>::empty(),
            q.spec_values() =~= Seq::<Seq<char>>::empty(),
    {
        let q = Self { keys: Vec::new(), values: Vec::new() };
        proof {
            assert(q.spec_keys() =~= Seq::<Seq<char>>::empty());
            assert(q.spec_values() =~= Seq::<Seq<char>>::empty());
        }
        q
    }

    pub fn add(self, k: String, v: String) -> (q: Self)
        requires
            self.wf(),
        ensures
            q.wf(),
            q.spec_keys() =~= self.spec_keys().push(k@),
            q.spec_values() =~= self.spec_values().push(v@),
    {
        let mut keys = self.keys;
        let mut values = self.values;
        keys.push(k);
        values.push(v);
        let q = Self { keys, values };
        proof {
            assert(q.spec_keys() =~= self.spec_keys().push(k@));
            assert(q.spec_values() =~= self.spec_values().push(v@));
        }
        q
    }

    /// Renders the collected pairs: empty for none, else `?k=v&k=v&...` in
    /// insertion order.
    pub fn build(self) -> (r: String)
        requires
            self.wf(),
        ensures
            r@ == query_string(self.spec_keys(), self.spec_values()),
    {
        proof {
            reveal_strlit("?");
            reveal_strlit("&");
            reveal_strlit("=");
        }
        if self.keys.len() == 0 {
            return String::new();
        }
        let ghost kv = self.spec_keys();
        let ghost vv = self.spec_values();
        let mut q = String::from_str("?");
        proof {
            assert(q@ =~= seq!['?']);
        }
        let n = self.keys.len();
        let mut i: usize = 0;
        while i < n
            invariant
                self.wf(),
                n == self.keys@.len(),
                kv == self.spec_keys(),
                vv == self.spec_values(),
                i <= n,
                i == 0 ==> q@ == seq!['?'],
                i > 0 ==> q@ == seq!['?'] + query_pairs(kv.take(i as int), vv.take(i as int)),
            decreases n - i,
        {
            if i > 0 {
                q.append("&");
            }
            q.append(self.keys[i].as_str());
            q.append("=");
            q.append(self.values[i].as_str());
            proof {
                reveal_strlit("&");
                reveal_strlit("=");
                assert("&"@ =~= seq!['&']);
                assert("="@ =~= seq!['=']);
                let k1 = kv.take(i + 1);
                let v1 = vv.take(i + 1);
                assert(kv[i as int] == self.keys@[i as int]@);
                assert(vv[i as int] == self.values@[i as int]@);
                if i == 0 {
                    assert(k1.len() == 1);
                    assert(k1[0] == kv[0] && v1[0] == vv[0]);
                    assert(query_pairs(k1, v1) == k1[0] + seq!['='] + v1[0]);
                    assert(q@ =~= seq!['?'] + query_pairs(k1, v1));
                } else {
                    assert(k1.drop_last() =~= kv.take(i as int));
                    assert(v1.drop_last() =~= vv.take(i as int));
                    assert(k1.last() == kv[i as int] && v1.last() == vv[i as int]);
                    assert(query_pairs(k1, v1) == query_pairs(
                        kv.take(i as int),
                        vv.take(i as int),
                    ) + seq!['&'] + kv[i as int] + seq!['='] + vv[i as int]);
                    assert(q@ =~= seq!['?'] + query_pairs(k1, v1));
                }
            }
            i = i + 1;
        }
        proof {
            assert(kv.take(n as int) =~= kv);
            assert(vv.take(n as int) =~= vv);
        }
        q
    }
}

} // verus!

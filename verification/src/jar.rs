//! The parent collaborator: a plain jar of named cookies, viewed as a map
//! from names to stored values. It owns lookup, insertion and removal; it
//! never interprets the values it stores.

use vstd::prelude::*;

verus! {

/// A named text value.
pub struct Cookie {
    pub name: String,
    pub value: String,
}

impl Cookie {
    /// A cookie with the given name and value.
    pub fn new(name: &str, value: &str) -> (r: Cookie)
        ensures
            r.name@ == name@,
            r.value@ == value@,
    {
        Cookie { name: name.to_owned(), value: value.to_owned() }
    }

    /// A cookie with the given name and an empty value: enough to address a
    /// stored cookie, for removal.
    pub fn named(name: &str) -> (r: Cookie)
        ensures
            r.name@ == name@,
            r.value@ == Seq::<char>::empty(),
    {
        Cookie { name: name.to_owned(), value: String::new() }
    }

    /// The cookie's name.
    pub fn name(&self) -> (r: &str)
        ensures
            r@ == self.name@,
    {
        self.name.as_str()
    }

    /// The cookie's value.
    pub fn value(&self) -> (r: &str)
        ensures
            r@ == self.value@,
    {
        self.value.as_str()
    }

    /// Replace the cookie's value, keeping its name.
    pub fn set_value(&mut self, value: String)
        ensures
            final(self).name == old(self).name,
            final(self).value == value,
    {
        self.value = value;
    }
}

/// True when no two cookies in the sequence share a name.
spec fn names_unique(s: Seq<Cookie>) -> bool {
    forall|i: int, j: int| 0 <= i < j < s.len() ==> s[i].name@ != s[j].name@
}

/// True when some cookie in the sequence has the given name.
spec fn has_name(s: Seq<Cookie>, n: Seq<char>) -> bool {
    exists|i: int| 0 <= i < s.len() && (#[trigger] s[i].name@) == n
}

/// The value of the cookie with the given name, where one exists.
spec fn value_of(s: Seq<Cookie>, n: Seq<char>) -> Seq<char> {
    let i = choose|i: int| 0 <= i < s.len() && (#[trigger] s[i].name@) == n;
    s[i].value@
}

/// A jar of cookies, no two sharing a name.
pub struct CookieJar {
    cookies: Vec<Cookie>,
}

impl View for CookieJar {
    type V = Map<Seq<char>, Seq<char>>;

    closed spec fn view(&self) -> Map<Seq<char>, Seq<char>> {
        Map::new(
            |n: Seq<char>| has_name(self.cookies@, n),
            |n: Seq<char>| value_of(self.cookies@, n),
        )
    }
}

/// With unique names, the cookie at any index is the one its name finds.
proof fn lemma_unique_value(s: Seq<Cookie>, i: int)
    requires
        names_unique(s),
        0 <= i < s.len(),
    ensures
        has_name(s, s[i].name@),
        value_of(s, s[i].name@) == s[i].value@,
{
    let n = s[i].name@;
    assert(has_name(s, n));
    let j = choose|k: int| 0 <= k < s.len() && (#[trigger] s[k].name@) == n;
    if i < j {
        assert(s[i].name@ != s[j].name@);
    } else if j < i {
        assert(s[j].name@ != s[i].name@);
    }
}

/// Removing one cookie removes exactly its name and keeps every other entry.
proof fn lemma_remove(s: Seq<Cookie>, i: int)
    requires
        names_unique(s),
        0 <= i < s.len(),
    ensures
        names_unique(s.remove(i)),
        forall|n: Seq<char>| #[trigger] has_name(s.remove(i), n) <==> (has_name(s, n) && n
            != s[i].name@),
        forall|n: Seq<char>| n != s[i].name@ && has_name(s, n) ==> #[trigger] value_of(
            s.remove(i),
            n,
        ) == value_of(s, n),
{
    let t = s.remove(i);
    assert forall|k1: int, k2: int| 0 <= k1 < k2 < t.len() implies t[k1].name@ != t[k2].name@ by {
        let m1: int = if k1 < i {
            k1
        } else {
            k1 + 1
        };
        let m2: int = if k2 < i {
            k2
        } else {
            k2 + 1
        };
        assert(t[k1] == s[m1]);
        assert(t[k2] == s[m2]);
    }
    assert forall|n: Seq<char>| #[trigger] has_name(t, n) implies (has_name(s, n) && n
        != s[i].name@) by {
        let k = choose|k: int| 0 <= k < t.len() && (#[trigger] t[k].name@) == n;
        let m: int = if k < i {
            k
        } else {
            k + 1
        };
        assert(t[k] == s[m]);
        assert(s[m].name@ == n);
        if m < i {
            assert(s[m].name@ != s[i].name@);
        } else {
            assert(s[i].name@ != s[m].name@);
        }
    }
    assert forall|n: Seq<char>| (has_name(s, n) && n != s[i].name@) implies #[trigger] has_name(
        t,
        n,
    ) by {
        let j = choose|k: int| 0 <= k < s.len() && (#[trigger] s[k].name@) == n;
        let m: int = if j < i {
            j
        } else {
            j - 1
        };
        assert(t[m] == s[j]);
        assert(t[m].name@ == n);
    }
    assert forall|n: Seq<char>| n != s[i].name@ && has_name(s, n) implies #[trigger] value_of(
        t,
        n,
    ) == value_of(s, n) by {
        let j = choose|k: int| 0 <= k < s.len() && (#[trigger] s[k].name@) == n;
        assert(has_name(t, n));
        let k = choose|k: int| 0 <= k < t.len() && (#[trigger] t[k].name@) == n;
        let m: int = if k < i {
            k
        } else {
            k + 1
        };
        assert(t[k] == s[m]);
        if m < j {
            assert(s[m].name@ != s[j].name@);
        } else if j < m {
            assert(s[j].name@ != s[m].name@);
        }
    }
}

/// Pushing a cookie with a fresh name adds exactly its entry.
proof fn lemma_push(s: Seq<Cookie>, c: Cookie)
    requires
        names_unique(s),
        !has_name(s, c.name@),
    ensures
        names_unique(s.push(c)),
        forall|n: Seq<char>| #[trigger] has_name(s.push(c), n) <==> (has_name(s, n) || n
            == c.name@),
        value_of(s.push(c), c.name@) == c.value@,
        forall|n: Seq<char>| n != c.name@ && has_name(s, n) ==> #[trigger] value_of(s.push(c), n)
            == value_of(s, n),
{
    let t = s.push(c);
    assert forall|k1: int, k2: int| 0 <= k1 < k2 < t.len() implies t[k1].name@ != t[k2].name@ by {
        assert(t[k1] == s[k1]);
        if k2 < s.len() {
            assert(t[k2] == s[k2]);
        } else {
            assert(t[k2] == c);
            assert(s[k1].name@ == c.name@ ==> has_name(s, c.name@));
        }
    }
    assert forall|n: Seq<char>| #[trigger] has_name(t, n) implies (has_name(s, n) || n
        == c.name@) by {
        let k = choose|k: int| 0 <= k < t.len() && (#[trigger] t[k].name@) == n;
        if k < s.len() {
            assert(t[k] == s[k]);
            assert(s[k].name@ == n);
        } else {
            assert(t[k] == c);
        }
    }
    assert forall|n: Seq<char>| (has_name(s, n) || n == c.name@) implies #[trigger] has_name(
        t,
        n,
    ) by {
        if has_name(s, n) {
            let j = choose|k: int| 0 <= k < s.len() && (#[trigger] s[k].name@) == n;
            assert(t[j] == s[j]);
            assert(t[j].name@ == n);
        } else {
            assert(t[s.len() as int] == c);
            assert(t[s.len() as int].name@ == n);
        }
    }
    assert(value_of(t, c.name@) == c.value@) by {
        assert(t[s.len() as int] == c);
        assert(t[s.len() as int].name@ == c.name@);
        lemma_unique_value(t, s.len() as int);
    }
    assert forall|n: Seq<char>| n != c.name@ && has_name(s, n) implies #[trigger] value_of(t, n)
        == value_of(s, n) by {
        let j = choose|k: int| 0 <= k < s.len() && (#[trigger] s[k].name@) == n;
        assert(t[j] == s[j]);
        lemma_unique_value(s, j);
        lemma_unique_value(t, j);
    }
}

impl CookieJar {
    /// Well-formed: no two stored cookies share a name.
    pub closed spec fn wf(&self) -> bool {
        names_unique(self.cookies@)
    }

    /// An empty jar.
    pub fn new() -> (r: CookieJar)
        ensures
            r.wf(),
            r@ == Map::<Seq<char>, Seq<char>>::empty(),
    {
        let r = CookieJar { cookies: Vec::new() };
        proof {
            assert(r@ =~= Map::<Seq<char>, Seq<char>>::empty());
        }
        r
    }

    /// The index of the cookie with the given name, where one is stored.
    fn position_of(&self, name: &String) -> (r: Option<usize>)
        ensures
            r matches Some(i) ==> i < self.cookies@.len() && self.cookies@[i as int].name@
                == name@,
            r is None ==> forall|k: int|
                0 <= k < self.cookies@.len() ==> self.cookies@[k].name@ != name@,
    {
        let mut i: usize = 0;
        while i < self.cookies.len()
            invariant
                i <= self.cookies@.len(),
                forall|k: int| 0 <= k < i ==> self.cookies@[k].name@ != name@,
            decreases self.cookies@.len() - i,
        {
            if self.cookies[i].name == *name {
                return Some(i);
            }
            i = i + 1;
        }
        None
    }

    /// The stored cookie with the given name, where one exists.
    pub fn get(&self, name: &str) -> (r: Option<&Cookie>)
        requires
            self.wf(),
        ensures
            r matches Some(c) ==> self@.contains_key(name@) && c.name@ == name@ && c.value@
                == self@[name@],
            r is None ==> !self@.contains_key(name@),
    {
        let name_owned = name.to_owned();
        match self.position_of(&name_owned) {
            Some(i) => {
                proof {
                    lemma_unique_value(self.cookies@, i as int);
                }
                Some(&self.cookies[i])
            },
            None => {
                proof {
                    if has_name(self.cookies@, name@) {
                        let k = choose|k: int|
                            0 <= k < self.cookies@.len() && (#[trigger] self.cookies@[k].name@)
                                == name@;
                        assert(self.cookies@[k].name@ != name@);
                    }
                }
                None
            },
        }
    }

    /// Store a cookie, replacing any stored cookie of the same name.
    pub fn add(&mut self, cookie: Cookie)
        requires
            old(self).wf(),
        ensures
            final(self).wf(),
            final(self)@ == old(self)@.insert(cookie.name@, cookie.value@),
    {
        let ghost s0 = self.cookies@;
        let ghost cname = cookie.name@;
        let ghost cval = cookie.value@;
        match self.position_of(&cookie.name) {
            Some(i) => {
                proof {
                    lemma_remove(s0, i as int);
                }
                self.cookies.remove(i);
                proof {
                    assert(!has_name(self.cookies@, cname));
                    lemma_push(self.cookies@, cookie);
                }
                self.cookies.push(cookie);
                proof {
                    assert(self@ =~= old(self)@.insert(cname, cval));
                }
            },
            None => {
                proof {
                    if has_name(s0, cname) {
                        let k = choose|k: int|
                            0 <= k < s0.len() && (#[trigger] s0[k].name@) == cname;
                        assert(s0[k].name@ != cname);
                    }
                    lemma_push(s0, cookie);
                }
                self.cookies.push(cookie);
                proof {
                    assert(self@ =~= old(self)@.insert(cname, cval));
                }
            },
        }
    }

    /// Remove the stored cookie with the given cookie's name, where one
    /// exists; matching is by name alone.
    pub fn remove(&mut self, cookie: Cookie)
        requires
            old(self).wf(),
        ensures
            final(self).wf(),
            final(self)@ == old(self)@.remove(cookie.name@),
    {
        let ghost s0 = self.cookies@;
        let ghost cname = cookie.name@;
        match self.position_of(&cookie.name) {
            Some(i) => {
                proof {
                    lemma_remove(s0, i as int);
                }
                self.cookies.remove(i);
                proof {
                    assert(self@ =~= old(self)@.remove(cname));
                }
            },
            None => {
                proof {
                    if has_name(s0, cname) {
                        let k = choose|k: int|
                            0 <= k < s0.len() && (#[trigger] s0[k].name@) == cname;
                        assert(s0[k].name@ != cname);
                    }
                    assert(self@ =~= old(self)@.remove(cname));
                }
            },
        }
    }
}

} // verus!

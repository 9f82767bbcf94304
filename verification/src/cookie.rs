use vstd::prelude::*;
use vstd::string::StringExecFns;

verus! {

/// A named cookie with the domain and path it belongs to.
#[derive(Debug)]
pub struct Cookie {
    pub name: String,
    pub value: String,
    pub domain: String,
    pub path: String,
}

/// What a cookie holds, as plain sequences of characters.
pub struct CookieView {
    pub name: Seq<char>,
    pub value: Seq<char>,
    pub domain: Seq<char>,
    pub path: Seq<char>,
}

impl View for Cookie {
    type V = CookieView;

    open spec fn view(&self) -> CookieView {
        CookieView { name: self.name@, value: self.value@, domain: self.domain@, path: self.path@ }
    }
}

impl Clone for Cookie {
    fn clone(&self) -> (r: Self)
        ensures
            r@ == self@,
    {
        Cookie {
            name: self.name.clone(),
            value: self.value.clone(),
            domain: self.domain.clone(),
            path: self.path.clone(),
        }
    }
}

/// Whether some entry carries the name.
pub open spec fn has_name(entries: Seq<CookieView>, name: Seq<char>) -> bool {
    exists|i: int| 0 <= i < entries.len() && (#[trigger] entries[i]).name == name
}

/// A position at which the name stands; the only one where names are distinct.
pub open spec fn position_of(entries: Seq<CookieView>, name: Seq<char>) -> int {
    choose|i: int| 0 <= i < entries.len() && (#[trigger] entries[i]).name == name
}

/// No two entries share a name.
pub open spec fn distinct_names(entries: Seq<CookieView>) -> bool {
    forall|i: int, j: int|
        0 <= i < j < entries.len() ==> (#[trigger] entries[i]).name != (#[trigger] entries[j]).name
}

/// The cookie stored under the name, if any.
pub open spec fn lookup(entries: Seq<CookieView>, name: Seq<char>) -> Option<CookieView> {
    if has_name(entries, name) {
        Some(entries[position_of(entries, name)])
    } else {
        None
    }
}

/// The entries after a cookie went in: it replaces the entry of its name
/// where that exists, and else comes last.
pub open spec fn upsert(entries: Seq<CookieView>, cookie: CookieView) -> Seq<CookieView> {
    if has_name(entries, cookie.name) {
        entries.update(position_of(entries, cookie.name), cookie)
    } else {
        entries.push(cookie)
    }
}

/// The entries after the cookie of the given name left.
pub open spec fn without(entries: Seq<CookieView>, name: Seq<char>) -> Seq<CookieView> {
    if has_name(entries, name) {
        entries.remove(position_of(entries, name))
    } else {
        entries
    }
}

/// Where names are distinct, a name stands at one position only.
pub proof fn lemma_position_is_unique(entries: Seq<CookieView>, name: Seq<char>, i: int)
    requires
        distinct_names(entries),
        0 <= i < entries.len(),
        entries[i].name == name,
    ensures
        has_name(entries, name),
        position_of(entries, name) == i,
        lookup(entries, name) == Some(entries[i]),
{
}

/// A cookie that went in is the one found under its name, every other name
/// finds what it found before, and no name has come to stand twice: the
/// store grew by one where the name was new, and kept its size where the
/// cookie took the place of an earlier one.
pub proof fn lemma_upsert(entries: Seq<CookieView>, cookie: CookieView)
    requires
        distinct_names(entries),
    ensures
        distinct_names(upsert(entries, cookie)),
        lookup(upsert(entries, cookie), cookie.name) == Some(cookie),
        forall|other: Seq<char>|
            other != cookie.name ==> #[trigger] lookup(upsert(entries, cookie), other) == lookup(
                entries,
                other,
            ),
        has_name(entries, cookie.name) ==> upsert(entries, cookie).len() == entries.len(),
        !has_name(entries, cookie.name) ==> upsert(entries, cookie).len() == entries.len() + 1,
{
    let after = upsert(entries, cookie);
    let at: int = if has_name(entries, cookie.name) {
        position_of(entries, cookie.name)
    } else {
        entries.len() as int
    };
    assert forall|i: int| 0 <= i < after.len() && i != at implies #[trigger] after[i]
        == entries[i] && after[i].name != cookie.name by {
        if has_name(entries, cookie.name) {
            lemma_position_is_unique(entries, cookie.name, at);
        }
    }
    lemma_position_is_unique(after, cookie.name, at);
    assert forall|other: Seq<char>| other != cookie.name implies #[trigger] lookup(after, other)
        == lookup(entries, other) by {
        if has_name(entries, other) {
            lemma_position_is_unique(after, other, position_of(entries, other));
        } else if has_name(after, other) {
            assert(entries[position_of(after, other)].name == other);
        }
    }
}

/// Of two cookies of one name that went in one after the other, the store
/// holds the second only.
pub proof fn lemma_upsert_overwrites(entries: Seq<CookieView>, first: CookieView, second: CookieView)
    requires
        distinct_names(entries),
        first.name == second.name,
    ensures
        lookup(upsert(upsert(entries, first), second), first.name) == Some(second),
        upsert(upsert(entries, first), second).len() == upsert(entries, first).len(),
{
    lemma_upsert(entries, first);
    lemma_upsert(upsert(entries, first), second);
}

/// After a cookie left, its name finds nothing, every other name finds what
/// it found before, and names are still distinct.
pub proof fn lemma_without(entries: Seq<CookieView>, name: Seq<char>)
    requires
        distinct_names(entries),
    ensures
        distinct_names(without(entries, name)),
        lookup(without(entries, name), name) is None,
        forall|other: Seq<char>|
            other != name ==> #[trigger] lookup(without(entries, name), other) == lookup(
                entries,
                other,
            ),
{
    let after = without(entries, name);
    if has_name(entries, name) {
        let at = position_of(entries, name);
        assert forall|i: int| 0 <= i < after.len() implies (#[trigger] after[i]).name != name
            && after[i] == entries[if i < at { i } else { i + 1 }] by {
            lemma_position_is_unique(entries, name, at);
        }
        assert forall|other: Seq<char>| other != name implies #[trigger] lookup(after, other)
            == lookup(entries, other) by {
            if has_name(entries, other) {
                let k = position_of(entries, other);
                lemma_position_is_unique(after, other, if k < at { k } else { k - 1 });
            } else if has_name(after, other) {
                let k = position_of(after, other);
                assert(entries[if k < at { k } else { k + 1 }].name == other);
            }
        }
    }
}

/// A cookie as a request carries it: its name, `=`, its value.
pub open spec fn pair_text(cookie: CookieView) -> Seq<char> {
    cookie.name + seq!['='] + cookie.value
}

/// The value of a `Cookie` header that carries the entries in their order,
/// with `; ` between one and the next.
pub open spec fn header_text(entries: Seq<CookieView>) -> Seq<char>
    decreases entries.len(),
{
    if entries.len() == 0 {
        Seq::empty()
    } else if entries.len() == 1 {
        pair_text(entries[0])
    } else {
        header_text(entries.drop_last()) + seq![';', ' '] + pair_text(entries.last())
    }
}

/// Cookies by name, in the order in which their names first came in.
#[derive(Debug)]
pub struct CookieStore {
    cookies: Vec<Cookie>,
}

impl CookieStore {
    /// The stored cookies, oldest name first.
    pub closed spec fn entries(&self) -> Seq<CookieView> {
        self.cookies@.map_values(|c: Cookie| c@)
    }

    /// A store holds at most one cookie per name.
    pub open spec fn wf(&self) -> bool {
        distinct_names(self.entries())
    }

    pub fn new() -> (r: Self)
        ensures
            r.wf(),
            r.entries() == Seq::<CookieView>::empty(),
    {
        CookieStore { cookies: Vec::new() }
    }

    fn find(&self, name: &str) -> (r: Option<usize>)
        requires
            self.wf(),
        ensures
            r is Some <==> has_name(self.entries(), name@),
            r matches Some(i) ==> i as int == position_of(self.entries(), name@) && i
                < self.cookies.len(),
    {
        let mut i: usize = 0;
        while i < self.cookies.len()
            invariant
                i <= self.cookies.len(),
                forall|j: int| 0 <= j < i ==> (#[trigger] self.entries()[j]).name != name@,
                distinct_names(self.entries()),
            decreases self.cookies.len() - i,
        {
            if self.cookies[i].name.as_str().eq(name) {
                proof {
                    lemma_position_is_unique(self.entries(), name@, i as int);
                }
                return Some(i);
            }
            i += 1;
        }
        None
    }

    /// Stores the cookie under its name, in place of an earlier one of that
    /// name: looked up by that name it is then found, and every other name
    /// finds what it found before.
    pub fn add(&mut self, cookie: Cookie)
        requires
            old(self).wf(),
        ensures
            final(self).wf(),
            final(self).entries() == upsert(old(self).entries(), cookie@),
            lookup(final(self).entries(), cookie@.name) == Some(cookie@),
            forall|other: Seq<char>|
                other != cookie@.name ==> #[trigger] lookup(final(self).entries(), other)
                    == lookup(old(self).entries(), other),
    {
        proof {
            lemma_upsert(self.entries(), cookie@);
        }
        match self.find(cookie.name.as_str()) {
            Some(i) => {
                self.cookies.set(i, cookie);
            },
            None => {
                self.cookies.push(cookie);
            },
        }
        assert(self.entries() =~= upsert(old(self).entries(), cookie@));
    }

    /// Drops the cookie of the given name, if there is one: the name then
    /// finds nothing, and every other name finds what it found before.
    pub fn remove(&mut self, name: &str)
        requires
            old(self).wf(),
        ensures
            final(self).wf(),
            final(self).entries() == without(old(self).entries(), name@),
            lookup(final(self).entries(), name@) is None,
            forall|other: Seq<char>|
                other != name@ ==> #[trigger] lookup(final(self).entries(), other) == lookup(
                    old(self).entries(),
                    other,
                ),
    {
        proof {
            lemma_without(self.entries(), name@);
        }
        match self.find(name) {
            Some(i) => {
                self.cookies.remove(i);
            },
            None => {},
        }
        assert(self.entries() =~= without(old(self).entries(), name@));
    }

    /// The cookie stored under the name.
    pub fn get(&self, name: &str) -> (r: Option<&Cookie>)
        requires
            self.wf(),
        ensures
            match r {
                Some(c) => lookup(self.entries(), name@) == Some(c@),
                None => lookup(self.entries(), name@) is None,
            },
    {
        match self.find(name) {
            Some(i) => Some(&self.cookies[i]),
            None => None,
        }
    }

    /// Drops every cookie.
    pub fn clear(&mut self)
        ensures
            final(self).wf(),
            final(self).entries() == Seq::<CookieView>::empty(),
    {
        self.cookies.clear();
    }

    /// How many cookies the store holds.
    pub fn len(&self) -> (r: usize)
        ensures
            r == self.entries().len(),
    {
        self.cookies.len()
    }

    pub fn is_empty(&self) -> (r: bool)
        ensures
            r == (self.entries().len() == 0),
    {
        self.cookies.len() == 0
    }

    /// The value of the `Cookie` header that replays the stored cookies, or
    /// `None` where the store is empty and a request carries no such header.
    pub fn cookie_header(&self) -> (r: Option<String>)
        ensures
            match r {
                Some(text) => self.entries().len() > 0 && text@ == header_text(self.entries()),
                None => self.entries().len() == 0,
            },
    {
        if self.cookies.len() == 0 {
            return None;
        }
        let mut text = String::new();
        let mut i: usize = 0;
        while i < self.cookies.len()
            invariant
                i <= self.cookies.len(),
                text@ == header_text(self.entries().take(i as int)),
            decreases self.cookies.len() - i,
        {
            proof {
                reveal_strlit("; ");
                reveal_strlit("=");
                assert(self.entries().take(i as int + 1).drop_last() == self.entries().take(
                    i as int,
                ));
            }
            if i > 0 {
                text.append("; ");
            }
            text.append(self.cookies[i].name.as_str());
            text.append("=");
            text.append(self.cookies[i].value.as_str());
            i += 1;
        }
        proof {
            assert(self.entries().take(self.cookies.len() as int) == self.entries());
        }
        Some(text)
    }
}

} // verus!

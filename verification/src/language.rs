//! Languages: named syntax profiles, and the registry that finds one by name.

use vstd::prelude::*;

verus! {

/// A named syntax profile, used to highlight the snippets written in it.
#[derive(Debug)]
pub struct Language {
    /// The name that snippets refer to.
    pub name: String,
    /// The file extension by which a highlighter finds the syntax.
    pub extension: String,
    /// The colour that marks the language in a header: red, green, blue.
    pub color: (u8, u8, u8),
}

/// What a `Language` holds, as plain values.
pub struct LanguageView {
    pub name: Seq<char>,
    pub extension: Seq<char>,
    pub color: (u8, u8, u8),
}

impl View for Language {
    type V = LanguageView;

    open spec fn view(&self) -> LanguageView {
        LanguageView { name: self.name@, extension: self.extension@, color: self.color }
    }
}

impl Language {
    /// The profile substituted for a language that the registry does not
    /// know: plain text, marked in white.
    pub open spec fn fallback() -> LanguageView {
        LanguageView { name: "text"@, extension: ".txt"@, color: (255u8, 255u8, 255u8) }
    }

    /// A profile with the given name, extension and colour.
    pub fn new(name: String, extension: String, color: (u8, u8, u8)) -> (language: Language)
        ensures
            language@ == (LanguageView { name: name@, extension: extension@, color }),
    {
        Language { name, extension, color }
    }
}

impl Default for Language {
    /// The fallback profile.
    fn default() -> (language: Language)
        ensures
            language@ == Language::fallback(),
    {
        Language {
            name: String::from_str("text"),
            extension: String::from_str(".txt"),
            color: (255, 255, 255),
        }
    }
}

/// The language that a name stands for: the registered one, or `fallback`
/// where none is registered under that name.
pub open spec fn resolved(
    languages: Map<Seq<char>, LanguageView>,
    name: Seq<char>,
    fallback: LanguageView,
) -> LanguageView {
    if languages.contains_key(name) {
        languages[name]
    } else {
        fallback
    }
}

/// The registry of known languages, each found by its name.
#[derive(Debug)]
pub struct Languages {
    entries: Vec<Language>,
}

/// Whether the entry at position `i` is the one registered as `name`.
spec fn registered_at(entries: Seq<Language>, name: Seq<char>, i: int) -> bool {
    0 <= i < entries.len() && entries[i].name@ == name
}

impl View for Languages {
    type V = Map<Seq<char>, LanguageView>;

    /// The registry as a map from name to profile.
    closed spec fn view(&self) -> Map<Seq<char>, LanguageView> {
        Map::new(
            |name: Seq<char>| exists|i: int| registered_at(self.entries@, name, i),
            |name: Seq<char>| self.entries@[choose|i: int| registered_at(self.entries@, name, i)]@,
        )
    }
}

impl Languages {
    /// No name is registered twice.
    #[verifier::type_invariant]
    spec fn names_distinct(self) -> bool {
        forall|i: int, j: int|
            0 <= i < j < self.entries@.len() ==> self.entries@[i].name@ != self.entries@[j].name@
    }

    /// A registry that knows no language.
    pub fn new() -> (languages: Languages)
        ensures
            languages@ == Map::<Seq<char>, LanguageView>::empty(),
    {
        let languages = Languages { entries: Vec::new() };
        assert(languages@ =~= Map::<Seq<char>, LanguageView>::empty());
        languages
    }

    /// Where `name` is registered, if anywhere.
    fn position(&self, name: &str) -> (found: Option<usize>)
        ensures
            match found {
                Some(i) => registered_at(self.entries@, name@, i as int),
                None => forall|i: int| !registered_at(self.entries@, name@, i),
            },
    {
        let key = name.to_owned();
        let mut i: usize = 0;
        while i < self.entries.len()
            invariant
                i <= self.entries.len(),
                key@ == name@,
                forall|k: int| 0 <= k < i ==> !registered_at(self.entries@, name@, k),
            decreases self.entries.len() - i,
        {
            if self.entries[i].name == key {
                return Some(i);
            }
            i += 1;
        }
        None
    }

    /// Registers `language` under its name, in place of any language that
    /// had that name.
    pub fn insert(&mut self, language: Language)
        ensures
            final(self)@ == old(self)@.insert(language.name@, language@),
    {
        proof {
            use_type_invariant(&*self);
        }
        let ghost before = self.entries@;
        let ghost name = language.name@;
        let ghost profile = language@;
        let found = self.position(language.name.as_str());
        // The entries are taken out while they change and put back whole.
        let mut entries: Vec<Language> = Vec::new();
        core::mem::swap(&mut entries, &mut self.entries);
        match found {
            Some(i) => {
                entries.set(i, language);
                core::mem::swap(&mut entries, &mut self.entries);
                proof {
                    let after = self.entries@;
                    assert forall|n: Seq<char>, k: int|
                        registered_at(after, n, k) <==> registered_at(before, n, k) by {}
                    assert forall|n: Seq<char>| #[trigger]
                        self@.contains_key(n) implies self@[n] == old(self)@.insert(name, profile)[n] by {
                        let k = choose|k: int| registered_at(after, n, k);
                        let k0 = choose|k: int| registered_at(before, n, k);
                        assert(registered_at(before, n, k));
                        assert(k == k0);
                    }
                    assert(self@ =~= old(self)@.insert(name, profile));
                }
            },
            None => {
                entries.push(language);
                assert forall|i: int, j: int| 0 <= i < j < entries@.len() implies entries@[i].name@
                    != entries@[j].name@ by {
                    if j == before.len() {
                        assert(!registered_at(before, name, i));
                    }
                }
                core::mem::swap(&mut entries, &mut self.entries);
                proof {
                    let after = self.entries@;
                    let last = before.len() as int;
                    assert(registered_at(after, name, last));
                    assert forall|n: Seq<char>, k: int|
                        registered_at(after, n, k) <==> (registered_at(before, n, k) || (k == last
                            && n == name)) by {}
                    assert forall|n: Seq<char>| #[trigger]
                        self@.contains_key(n) implies self@[n] == old(self)@.insert(name, profile)[n] by {
                        let k = choose|k: int| registered_at(after, n, k);
                        if n != name {
                            let k0 = choose|k: int| registered_at(before, n, k);
                            assert(registered_at(before, n, k));
                            assert(k == k0);
                        }
                    }
                    assert(self@ =~= old(self)@.insert(name, profile));
                }
            },
        }
    }

    /// The language registered as `name`, if there is one.
    pub fn get(&self, name: &str) -> (found: Option<&Language>)
        ensures
            match found {
                Some(language) => self@.contains_key(name@) && language@ == self@[name@],
                None => !self@.contains_key(name@),
            },
    {
        proof {
            use_type_invariant(self);
        }
        match self.position(name) {
            Some(i) => {
                proof {
                    let k = choose|k: int| registered_at(self.entries@, name@, k);
                    assert(k == i);
                }
                Some(&self.entries[i])
            },
            None => None,
        }
    }

    /// The language registered as `name`, or `fallback` where the name is
    /// not registered: a miss is no error.
    pub fn resolve<'a>(&'a self, name: &str, fallback: &'a Language) -> (language: &'a Language)
        ensures
            language@ == resolved(self@, name@, fallback@),
    {
        match self.get(name) {
            Some(language) => language,
            None => fallback,
        }
    }
}

} // verus!

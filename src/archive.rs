//! Listing of the blob archive: the keys of every stored object.

use vstd::prelude::*;

verus! {

/// The texts of a sequence of keys.
pub open spec fn texts(keys: Seq<String>) -> Seq<Seq<char>> {
    keys.map_values(|k: String| k@)
}

/// The key texts of a paged listing, page after page.
pub open spec fn listed_keys(pages: Seq<Vec<String>>) -> Seq<Seq<char>> {
    pages.map_values(|p: Vec<String>| texts(p@)).flatten()
}

/// Every key stored in the archive, with their number.
#[derive(Clone, Debug)]
pub struct KeyList {
    number_of_keys: usize,
    keys: Vec<String>,
}

impl KeyList {
    /// Number of keys listed.
    pub closed spec fn count(&self) -> nat {
        self.number_of_keys as nat
    }

    /// The listed key texts.
    pub closed spec fn key_texts(&self) -> Seq<Seq<char>> {
        texts(self.keys@)
    }

    /// A listing with no keys.
    pub fn empty() -> (r: KeyList)
        ensures
            r.key_texts() == Seq::<Seq<char>>::empty(),
            r.count() == 0,
    {
        let keys: Vec<String> = Vec::new();
        assert(texts(keys@) =~= Seq::<Seq<char>>::empty());
        KeyList { number_of_keys: 0, keys }
    }

    /// Collect the keys of a paged listing, page after page, and count them.
    pub fn from_listing(pages: &Vec<Vec<String>>) -> (r: KeyList)
        ensures
            r.key_texts() == listed_keys(pages@),
            r.count() == listed_keys(pages@).len(),
    {
        let ghost all = pages@.map_values(|p: Vec<String>| texts(p@));
        let mut keys: Vec<String> = Vec::new();
        let mut i: usize = 0;
        while i < pages.len()
            invariant
                i <= pages@.len(),
                all == pages@.map_values(|p: Vec<String>| texts(p@)),
                texts(keys@) == all.take(i as int).flatten_alt(),
            decreases pages@.len() - i,
        {
            let page = &pages[i];
            let mut j: usize = 0;
            while j < page.len()
                invariant
                    i < pages@.len(),
                    page == pages@[i as int],
                    j <= page@.len(),
                    all == pages@.map_values(|p: Vec<String>| texts(p@)),
                    texts(keys@) == all.take(i as int).flatten_alt() + texts(page@.take(j as int)),
                    decreases page@.len() - j,
            {
                let ghost before = keys@;
                keys.push(page[j].clone());
                assert(texts(keys@) =~= texts(before).push(page@[j as int]@));
                assert(texts(page@.take(j as int + 1)) =~= texts(page@.take(j as int)).push(page@[j as int]@));
                j = j + 1;
            }
            assert(page@.take(j as int) =~= page@);
            assert(all.take(i as int + 1).drop_last() =~= all.take(i as int));
            i = i + 1;
        }
        assert(all.take(i as int) =~= all);
        proof {
            all.lemma_flatten_and_flatten_alt_are_equivalent();
        }
        KeyList { number_of_keys: keys.len(), keys }
    }

    /// Number of keys listed.
    pub fn number_of_keys(&self) -> (r: usize)
        ensures
            r == self.count(),
    {
        self.number_of_keys
    }

    /// The listed keys.
    pub fn keys(&self) -> (r: &Vec<String>)
        ensures
            texts(r@) == self.key_texts(),
    {
        &self.keys
    }
}

} // verus!

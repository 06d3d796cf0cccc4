//! Menu synchronizer: keeps the dynamic submenu consistent with the
//! directory's eligible script files and with the currently selected script.
//!
//! The host lists the scripts directory and hands the raw entries over as
//! [`ListingEntry`] values; the model derives the menu entries, allocates
//! identifiers from the reserved contiguous range starting at
//! [`MENU_ID_BASE`], and owns the checked state.

use vstd::prelude::*;

verus! {

/// First identifier of the reserved dynamic range. Identifiers outside
/// `[MENU_ID_BASE, MENU_ID_BASE + count)` never select a script.
pub const MENU_ID_BASE: u32 = 1100;

/// One raw directory entry, as the host lists it: the file name, the
/// extension (the part after the last dot, absent when there is none), and
/// whether the entry is a directory rather than a regular file.
pub struct ListingEntry {
    pub name: String,
    pub extension: Option<String>,
    pub is_dir: bool,
}

/// One entry of the dynamic submenu.
pub struct MenuEntry {
    pub id: u32,
    pub label: String,
    pub checked: bool,
}

/// The dynamic submenu section.
pub struct MenuModel {
    pub entries: Vec<MenuEntry>,
}

/// An entry is eligible iff it is a regular file with the recognized
/// script extension.
pub open spec fn entry_eligible(e: ListingEntry) -> bool {
    &&& !e.is_dir
    &&& e.extension matches Some(x) && x@ == "rhai"@
}

/// The names of the eligible entries of a listing, in listing order.
pub open spec fn eligible_names(listing: Seq<ListingEntry>) -> Seq<Seq<char>>
    decreases listing.len(),
{
    if listing.len() == 0 {
        Seq::empty()
    } else {
        let rest = eligible_names(listing.drop_last());
        if entry_eligible(listing.last()) {
            rest.push(listing.last().name@)
        } else {
            rest
        }
    }
}

impl MenuModel {
    /// Identifiers are exactly the reserved range, assigned in order.
    pub open spec fn wf(&self) -> bool {
        &&& self.entries@.len() + MENU_ID_BASE <= u32::MAX
        &&& forall|i: int|
            0 <= i < self.entries@.len() ==> (#[trigger] self.entries@[i]).id == MENU_ID_BASE + i
    }

    /// The section shows exactly the eligible files of `listing`, in listing
    /// order, with sequential identifiers from the reserved base, and an
    /// entry is checked iff its label equals `selected`.
    pub open spec fn matches_rebuild(
        &self,
        listing: Seq<ListingEntry>,
        selected: Seq<char>,
    ) -> bool {
        let names = eligible_names(listing);
        &&& self.entries@.len() == names.len()
        &&& forall|i: int|
            0 <= i < names.len() ==> (#[trigger] self.entries@[i]).id == MENU_ID_BASE + i
        &&& forall|i: int| 0 <= i < names.len() ==> (#[trigger] self.entries@[i]).label@ == names[i]
        &&& forall|i: int|
            0 <= i < names.len() ==> ((#[trigger] self.entries@[i]).checked <==> names[i]
                == selected)
    }

    pub fn new() -> (r: MenuModel)
        ensures
            r.entries@.len() == 0,
            r.wf(),
    {
        MenuModel { entries: Vec::new() }
    }

    /// Derive the dynamic section afresh from a directory listing.
    ///
    /// Every prior entry is dropped; one entry is appended per eligible
    /// file, in listing order, with sequential identifiers starting at the
    /// reserved base; an appended entry is checked iff its label equals the
    /// currently selected script name. An empty listing yields an empty
    /// section.
    pub fn rebuild(&mut self, listing: &Vec<ListingEntry>, selected: &String)
        requires
            listing@.len() + MENU_ID_BASE <= u32::MAX,
        ensures
            final(self).matches_rebuild(listing@, selected@),
            final(self).wf(),
    {
        let mut fresh: Vec<MenuEntry> = Vec::new();
        let mut i: usize = 0;
        while i < listing.len()
            invariant
                i <= listing@.len(),
                listing@.len() + MENU_ID_BASE <= u32::MAX,
                fresh@.len() == eligible_names(listing@.take(i as int)).len(),
                fresh@.len() <= i,
                forall|j: int|
                    0 <= j < fresh@.len() ==> (#[trigger] fresh@[j]).id == MENU_ID_BASE + j,
                forall|j: int|
                    0 <= j < fresh@.len() ==> (#[trigger] fresh@[j]).label@ == eligible_names(
                        listing@.take(i as int),
                    )[j],
                forall|j: int|
                    0 <= j < fresh@.len() ==> ((#[trigger] fresh@[j]).checked <==> eligible_names(
                        listing@.take(i as int),
                    )[j] == selected@),
            decreases listing@.len() - i,
        {
            proof {
                assert(listing@.take(i + 1).drop_last() =~= listing@.take(i as int));
                assert(listing@.take(i + 1).last() == listing@[i as int]);
            }
            let e = &listing[i];
            if is_eligible(e) {
                let id: u32 = MENU_ID_BASE + fresh.len() as u32;
                let checked: bool = e.name.eq(selected);
                fresh.push(MenuEntry { id, label: e.name.clone(), checked });
            }
            i = i + 1;
        }
        proof {
            assert(listing@.take(listing@.len() as int) =~= listing@);
        }
        self.entries = fresh;
    }

    /// Uncheck every entry of the section, then check exactly those whose
    /// identifier equals `id`; identifiers and labels are untouched.
    pub fn set_checked(&mut self, id: u32)
        ensures
            final(self).entries@.len() == old(self).entries@.len(),
            forall|i: int|
                0 <= i < final(self).entries@.len() ==> (#[trigger] final(self).entries@[i]).id
                    == old(self).entries@[i].id,
            forall|i: int|
                0 <= i < final(self).entries@.len() ==> (#[trigger] final(self).entries@[i]).label@
                    == old(self).entries@[i].label@,
            forall|i: int|
                0 <= i < final(self).entries@.len() ==> ((#[trigger] final(self).entries@[i]).checked
                    <==> final(self).entries@[i].id == id),
            old(self).wf() ==> final(self).wf(),
    {
        let mut fresh: Vec<MenuEntry> = Vec::new();
        let mut i: usize = 0;
        while i < self.entries.len()
            invariant
                i <= self.entries@.len(),
                self.entries@ == old(self).entries@,
                fresh@.len() == i,
                forall|j: int|
                    0 <= j < i ==> (#[trigger] fresh@[j]).id == old(self).entries@[j].id,
                forall|j: int|
                    0 <= j < i ==> (#[trigger] fresh@[j]).label@ == old(self).entries@[j].label@,
                forall|j: int|
                    0 <= j < i ==> ((#[trigger] fresh@[j]).checked <==> fresh@[j].id == id),
            decreases self.entries@.len() - i,
        {
            let ent = &self.entries[i];
            fresh.push(MenuEntry { id: ent.id, label: ent.label.clone(), checked: ent.id == id });
            i = i + 1;
        }
        self.entries = fresh;
    }

    /// Whether `id` falls inside the reserved dynamic range of this section.
    pub fn in_dynamic_range(&self, id: u32) -> (r: bool)
        ensures
            r == (MENU_ID_BASE <= id && id - MENU_ID_BASE < self.entries@.len()),
    {
        if id < MENU_ID_BASE {
            false
        } else {
            ((id - MENU_ID_BASE) as usize) < self.entries.len()
        }
    }

    /// The label shown at the position the reserved range assigns to `id`,
    /// or nothing when `id` lies outside the range.
    pub fn label_of(&self, id: u32) -> (r: Option<String>)
        ensures
            r is Some <==> (MENU_ID_BASE <= id && id - MENU_ID_BASE < self.entries@.len()),
            r matches Some(lbl) ==> lbl@ == self.entries@[id - MENU_ID_BASE].label@,
    {
        if id < MENU_ID_BASE {
            return None;
        }
        let idx: usize = (id - MENU_ID_BASE) as usize;
        if idx < self.entries.len() {
            Some(self.entries[idx].label.clone())
        } else {
            None
        }
    }
}

/// Eligibility of one directory entry: a regular file whose extension is
/// the recognized script extension.
pub fn is_eligible(e: &ListingEntry) -> (r: bool)
    ensures
        r == entry_eligible(*e),
{
    if e.is_dir {
        return false;
    }
    match &e.extension {
        Some(x) => {
            let rhai: String = String::from_str("rhai");
            x.eq(&rhai)
        },
        None => false,
    }
}

/// Law: a rebuilt section holds exactly one entry per eligible file, with
/// pairwise distinct identifiers, all inside the reserved range.
pub proof fn lemma_rebuild_ids_unique(
    m: MenuModel,
    listing: Seq<ListingEntry>,
    selected: Seq<char>,
)
    requires
        m.matches_rebuild(listing, selected),
    ensures
        m.entries@.len() == eligible_names(listing).len(),
        forall|i: int, j: int|
            0 <= i < j < m.entries@.len() ==> m.entries@[i].id != m.entries@[j].id,
        forall|i: int|
            0 <= i < m.entries@.len() ==> MENU_ID_BASE <= (#[trigger] m.entries@[i]).id
                < MENU_ID_BASE + m.entries@.len(),
{
}

/// Law: a rebuild is deterministic in the listing and the selected name, so
/// rebuilding twice with no intervening change yields an identical entry
/// set: same identifiers, same labels, same checked flags.
pub proof fn lemma_rebuild_deterministic(
    m1: MenuModel,
    m2: MenuModel,
    listing: Seq<ListingEntry>,
    selected: Seq<char>,
)
    requires
        m1.matches_rebuild(listing, selected),
        m2.matches_rebuild(listing, selected),
    ensures
        m1.entries@.len() == m2.entries@.len(),
        forall|i: int|
            0 <= i < m1.entries@.len() ==> (#[trigger] m1.entries@[i]).id == m2.entries@[i].id,
        forall|i: int|
            0 <= i < m1.entries@.len() ==> (#[trigger] m1.entries@[i]).label@
                == m2.entries@[i].label@,
        forall|i: int|
            0 <= i < m1.entries@.len() ==> ((#[trigger] m1.entries@[i]).checked
                <==> m2.entries@[i].checked),
{
}

/// Law: after checking an identifier that the well-formed section holds,
/// exactly one entry is checked, and it is the one whose identifier was
/// passed.
pub proof fn lemma_set_checked_exactly_one(m: MenuModel, id: u32)
    requires
        m.wf(),
        MENU_ID_BASE <= id,
        id - MENU_ID_BASE < m.entries@.len(),
        forall|i: int|
            0 <= i < m.entries@.len() ==> ((#[trigger] m.entries@[i]).checked <==> m.entries@[i].id
                == id),
    ensures
        m.entries@[id - MENU_ID_BASE].checked,
        forall|i: int|
            0 <= i < m.entries@.len() && (#[trigger] m.entries@[i]).checked ==> i == id
                - MENU_ID_BASE,
{
    assert(m.entries@[id - MENU_ID_BASE].id == id);
}

/// Law: after a rebuild, an entry is checked iff its label equals the
/// selected name; when that name is absent from the eligible listing, no
/// entry is checked at all.
pub proof fn lemma_rebuild_checked_is_selected(
    m: MenuModel,
    listing: Seq<ListingEntry>,
    selected: Seq<char>,
)
    requires
        m.matches_rebuild(listing, selected),
    ensures
        forall|i: int|
            0 <= i < m.entries@.len() ==> ((#[trigger] m.entries@[i]).checked
                <==> m.entries@[i].label@ == selected),
        !eligible_names(listing).contains(selected) ==> forall|i: int|
            0 <= i < m.entries@.len() ==> !(#[trigger] m.entries@[i]).checked,
{
    if !eligible_names(listing).contains(selected) {
        assert forall|i: int|
            0 <= i < m.entries@.len() implies !(#[trigger] m.entries@[i]).checked by {
            if m.entries@[i].checked {
                assert(eligible_names(listing)[i] == selected);
            }
        }
    }
}

} // verus!

//! Component metadata left behind by the derive macros, and the table the
//! command line tool builds from it.

use vstd::prelude::*;
use crate::text::same_text;

verus! {

// ── Views ───────────────────────────────────────────────────────────────────

pub struct LineInfoView {
    pub file: Seq<char>,
    pub line: u32,
}

pub struct BusLaneInfoView {
    pub name: Seq<char>,
    pub lane_type: Seq<char>,
    pub bound: Seq<char>,
}

pub struct DeviceRefsView {
    pub state: Seq<char>,
    pub config: Seq<char>,
    pub kernel_bus: Seq<char>,
    pub backends: Seq<Seq<char>>,
    pub middleware: Option<Seq<char>>,
}

pub enum PayloadView {
    Device { refs: DeviceRefsView },
    Bus { lanes: Seq<BusLaneInfoView> },
    State,
    Config,
    Kernel { bus: Seq<char> },
    Middleware,
    Command,
    Create { parent: Option<Seq<char>> },
}

pub struct MetadataView {
    pub uuid: u32,
    pub name: Seq<char>,
    pub source: LineInfoView,
    pub payload: PayloadView,
}

/// The views of a sequence of strings.
pub open spec fn strings_view(v: Seq<String>) -> Seq<Seq<char>> {
    v.map_values(|s: String| s@)
}

pub open spec fn opt_string_view(o: Option<String>) -> Option<Seq<char>> {
    match o {
        Some(s) => Some(s@),
        None => None,
    }
}

// ── Types ───────────────────────────────────────────────────────────────────

/// Everything a derive macro records of one component.
pub struct Metadata {
    pub uuid: u32,
    pub name: String,
    pub source: LineInfo,
    pub payload: ComponentPayload,
}

/// Where a component is declared.
pub struct LineInfo {
    pub file: String,
    pub line: u32,
}

/// What kind of component it is, with what that kind refers to.
pub enum ComponentPayload {
    Device { refs: DeviceRefs },
    Bus { lanes: Vec<BusLaneInfo> },
    State,
    Config,
    Kernel { bus: String },
    Middleware,
    Command,
    Create { parent: Option<String> },
}

/// The components a device is built from, by name.
pub struct DeviceRefs {
    pub state: String,
    pub config: String,
    pub kernel_bus: String,
    pub backends: Vec<String>,
    pub middleware: Option<String>,
}

/// One lane of a bus.
pub struct BusLaneInfo {
    pub name: String,
    pub lane_type: String,
    pub bound: String,
}

impl View for LineInfo {
    type V = LineInfoView;

    open spec fn view(&self) -> LineInfoView {
        LineInfoView { file: self.file@, line: self.line }
    }
}

impl View for BusLaneInfo {
    type V = BusLaneInfoView;

    open spec fn view(&self) -> BusLaneInfoView {
        BusLaneInfoView { name: self.name@, lane_type: self.lane_type@, bound: self.bound@ }
    }
}

impl View for DeviceRefs {
    type V = DeviceRefsView;

    open spec fn view(&self) -> DeviceRefsView {
        DeviceRefsView {
            state: self.state@,
            config: self.config@,
            kernel_bus: self.kernel_bus@,
            backends: strings_view(self.backends@),
            middleware: opt_string_view(self.middleware),
        }
    }
}

pub open spec fn lanes_view(v: Seq<BusLaneInfo>) -> Seq<BusLaneInfoView> {
    v.map_values(|l: BusLaneInfo| l@)
}

impl View for ComponentPayload {
    type V = PayloadView;

    open spec fn view(&self) -> PayloadView {
        match self {
            ComponentPayload::Device { refs } => PayloadView::Device { refs: refs@ },
            ComponentPayload::Bus { lanes } => PayloadView::Bus { lanes: lanes_view(lanes@) },
            ComponentPayload::State => PayloadView::State,
            ComponentPayload::Config => PayloadView::Config,
            ComponentPayload::Kernel { bus } => PayloadView::Kernel { bus: bus@ },
            ComponentPayload::Middleware => PayloadView::Middleware,
            ComponentPayload::Command => PayloadView::Command,
            ComponentPayload::Create { parent } => PayloadView::Create {
                parent: opt_string_view(*parent),
            },
        }
    }
}

impl View for Metadata {
    type V = MetadataView;

    open spec fn view(&self) -> MetadataView {
        MetadataView {
            uuid: self.uuid,
            name: self.name@,
            source: self.source@,
            payload: self.payload@,
        }
    }
}

// ── Copies ──────────────────────────────────────────────────────────────────

/// A copy of a list of strings.
pub fn copy_strings(v: &Vec<String>) -> (r: Vec<String>)
    ensures
        strings_view(r@) == strings_view(v@),
        r@ == v@,
{
    let mut r: Vec<String> = Vec::new();
    let mut i: usize = 0;
    while i < v.len()
        invariant
            i <= v@.len(),
            r@ == v@.take(i as int),
        decreases v@.len() - i,
    {
        r.push(v[i].clone());
        i = i + 1;
        assert(r@ =~= v@.take(i as int));
    }
    assert(v@.take(v@.len() as int) =~= v@);
    r
}

pub fn copy_opt_string(o: &Option<String>) -> (r: Option<String>)
    ensures
        r == *o,
{
    match o {
        Some(s) => Some(s.clone()),
        None => None,
    }
}

impl Clone for LineInfo {
    fn clone(&self) -> (r: Self)
        ensures
            r@ == self@,
    {
        LineInfo { file: self.file.clone(), line: self.line }
    }
}

impl Clone for BusLaneInfo {
    fn clone(&self) -> (r: Self)
        ensures
            r@ == self@,
    {
        BusLaneInfo {
            name: self.name.clone(),
            lane_type: self.lane_type.clone(),
            bound: self.bound.clone(),
        }
    }
}

impl Clone for DeviceRefs {
    fn clone(&self) -> (r: Self)
        ensures
            r@ == self@,
    {
        DeviceRefs {
            state: self.state.clone(),
            config: self.config.clone(),
            kernel_bus: self.kernel_bus.clone(),
            backends: copy_strings(&self.backends),
            middleware: copy_opt_string(&self.middleware),
        }
    }
}

fn copy_lanes(v: &Vec<BusLaneInfo>) -> (r: Vec<BusLaneInfo>)
    ensures
        lanes_view(r@) == lanes_view(v@),
{
    let mut r: Vec<BusLaneInfo> = Vec::new();
    let mut i: usize = 0;
    while i < v.len()
        invariant
            i <= v@.len(),
            r@.len() == i,
            forall|j: int| 0 <= j < i ==> (#[trigger] r@[j])@ == v@[j]@,
        decreases v@.len() - i,
    {
        r.push(v[i].clone());
        i = i + 1;
    }
    assert(lanes_view(r@) =~= lanes_view(v@));
    r
}

impl Clone for ComponentPayload {
    fn clone(&self) -> (r: Self)
        ensures
            r@ == self@,
    {
        match self {
            ComponentPayload::Device { refs } => ComponentPayload::Device { refs: refs.clone() },
            ComponentPayload::Bus { lanes } => ComponentPayload::Bus { lanes: copy_lanes(lanes) },
            ComponentPayload::State => ComponentPayload::State,
            ComponentPayload::Config => ComponentPayload::Config,
            ComponentPayload::Kernel { bus } => ComponentPayload::Kernel { bus: bus.clone() },
            ComponentPayload::Middleware => ComponentPayload::Middleware,
            ComponentPayload::Command => ComponentPayload::Command,
            ComponentPayload::Create { parent } => ComponentPayload::Create {
                parent: copy_opt_string(parent),
            },
        }
    }
}

impl Clone for Metadata {
    fn clone(&self) -> (r: Self)
        ensures
            r@ == self@,
    {
        Metadata {
            uuid: self.uuid,
            name: self.name.clone(),
            source: self.source.clone(),
            payload: self.payload.clone(),
        }
    }
}


// ── The table ───────────────────────────────────────────────────────────────

pub open spec fn metas_view(v: Seq<Metadata>) -> Seq<MetadataView> {
    v.map_values(|m: Metadata| m@)
}

pub open spec fn has_name(s: Seq<MetadataView>, k: Seq<char>) -> bool {
    exists|i: int| 0 <= i < s.len() && s[i].name == k
}

/// `i` is the first position of an entry named `k`.
pub open spec fn is_first(s: Seq<MetadataView>, k: Seq<char>, i: int) -> bool {
    &&& 0 <= i < s.len()
    &&& s[i].name == k
    &&& forall|j: int| 0 <= j < i ==> s[j].name != k
}

pub open spec fn name_index(s: Seq<MetadataView>, k: Seq<char>) -> int {
    choose|i: int| is_first(s, k, i)
}

/// The entry named `k`, if there is one.
pub open spec fn lookup(s: Seq<MetadataView>, k: Seq<char>) -> Option<MetadataView> {
    if has_name(s, k) {
        Some(s[name_index(s, k)])
    } else {
        None
    }
}

/// The entries after recording `m`: it replaces the entry of the same name,
/// or comes last.
pub open spec fn table_insert(s: Seq<MetadataView>, m: MetadataView) -> Seq<MetadataView> {
    if has_name(s, m.name) {
        s.update(name_index(s, m.name), m)
    } else {
        s.push(m)
    }
}

/// The entries after recording each of `s` in turn.
pub open spec fn table_from(s: Seq<MetadataView>) -> Seq<MetadataView>
    decreases s.len(),
{
    if s.len() == 0 {
        Seq::empty()
    } else {
        table_insert(table_from(s.drop_last()), s.last())
    }
}

/// The metadata found, by component name. Recording a component whose name
/// is already present replaces the earlier one.
pub struct MetadataTable {
    entries: Vec<Metadata>,
}

impl View for MetadataTable {
    type V = Seq<MetadataView>;

    closed spec fn view(&self) -> Seq<MetadataView> {
        metas_view(self.entries@)
    }
}

proof fn lemma_first_unique(s: Seq<MetadataView>, k: Seq<char>, i: int)
    requires
        is_first(s, k, i),
    ensures
        has_name(s, k),
        name_index(s, k) == i,
{
    let j = name_index(s, k);
    assert(is_first(s, k, j));
    if j < i {
        assert(s[j].name != k);
    } else if i < j {
        assert(s[i].name != k);
    }
}

proof fn lemma_has_first(s: Seq<MetadataView>, k: Seq<char>)
    requires
        has_name(s, k),
    ensures
        is_first(s, k, name_index(s, k)),
    decreases s.len(),
{
    let d = s.drop_last();
    if has_name(d, k) {
        lemma_has_first(d, k);
        let i = name_index(d, k);
        assert(is_first(s, k, i)) by {
            assert(s[i] == d[i]);
            assert forall|j: int| 0 <= j < i implies s[j].name != k by {
                assert(s[j] == d[j]);
            }
        }
    } else {
        assert(s[s.len() - 1].name == k) by {
            let i = choose|i: int| 0 <= i < s.len() && s[i].name == k;
            if i < s.len() - 1 {
                assert(d[i].name == k);
            }
        }
        assert(is_first(s, k, s.len() - 1)) by {
            assert forall|j: int| 0 <= j < s.len() - 1 implies s[j].name != k by {
                assert(d[j] == s[j]);
            }
        }
    }
}

/// Reading back after recording: the entry named like the recorded one is
/// the recorded one, and every other name finds what it found before.
pub proof fn lemma_lookup_after_insert(s: Seq<MetadataView>, m: MetadataView, k: Seq<char>)
    ensures
        lookup(table_insert(s, m), k) == (if k == m.name {
            Some(m)
        } else {
            lookup(s, k)
        }),
{
    let t = table_insert(s, m);
    if has_name(s, m.name) {
        let p = name_index(s, m.name);
        lemma_has_first(s, m.name);
        if k == m.name {
            assert(is_first(t, k, p));
            lemma_first_unique(t, k, p);
        } else if has_name(s, k) {
            let q = name_index(s, k);
            lemma_has_first(s, k);
            assert(is_first(t, k, q));
            lemma_first_unique(t, k, q);
        } else {
            if has_name(t, k) {
                let q = choose|q: int| 0 <= q < t.len() && t[q].name == k;
                assert(s[q].name == k);
            }
        }
    } else {
        if k == m.name {
            assert(is_first(t, k, s.len() as int));
            lemma_first_unique(t, k, s.len() as int);
        } else if has_name(s, k) {
            let q = name_index(s, k);
            lemma_has_first(s, k);
            assert(is_first(t, k, q));
            lemma_first_unique(t, k, q);
        } else {
            if has_name(t, k) {
                let q = choose|q: int| 0 <= q < t.len() && t[q].name == k;
                assert(q < s.len());
                assert(s[q].name == k);
            }
        }
    }
}

impl MetadataTable {
    /// An empty table.
    pub fn new() -> (t: Self)
        ensures
            t@ == Seq::<MetadataView>::empty(),
    {
        let t = MetadataTable { entries: Vec::new() };
        assert(t@ =~= Seq::<MetadataView>::empty());
        t
    }

    fn position(&self, name: &str) -> (r: Option<usize>)
        ensures
            match r {
                Some(i) => i < self@.len() && self@[i as int].name == name@ && has_name(self@, name@)
                    && name_index(self@, name@) == i,
                None => !has_name(self@, name@),
            },
    {
        let mut i: usize = 0;
        while i < self.entries.len()
            invariant
                i <= self.entries@.len(),
                self@ == metas_view(self.entries@),
                forall|j: int| 0 <= j < i ==> self@[j].name != name@,
            decreases self.entries@.len() - i,
        {
            if same_text(self.entries[i].name.as_str(), name) {
                proof {
                    assert(self@[i as int].name == name@);
                    lemma_first_unique(self@, name@, i as int);
                }
                return Some(i);
            }
            i = i + 1;
        }
        None
    }

    /// Records `meta` under its name, replacing an entry of the same name.
    pub fn insert(&mut self, meta: Metadata)
        ensures
            final(self)@ == table_insert(old(self)@, meta@),
    {
        let ghost before = self@;
        let ghost m = meta@;
        match self.position(meta.name.as_str()) {
            Some(i) => {
                self.entries.set(i, meta);
                assert(metas_view(self.entries@) =~= table_insert(before, m));
            },
            None => {
                self.entries.push(meta);
                assert(metas_view(self.entries@) =~= table_insert(before, m));
            },
        }
    }

    /// The entry named `name`.
    pub fn get(&self, name: &str) -> (r: Option<&Metadata>)
        ensures
            match r {
                Some(m) => lookup(self@, name@) == Some(m@),
                None => lookup(self@, name@) is None,
            },
    {
        match self.position(name) {
            Some(i) => Some(&self.entries[i]),
            None => None,
        }
    }

    /// Whether an entry is named `name`.
    pub fn contains_key(&self, name: &str) -> (b: bool)
        ensures
            b == has_name(self@, name@),
    {
        self.position(name).is_some()
    }

    /// The number of entries.
    pub fn len(&self) -> (n: usize)
        ensures
            n == self@.len(),
    {
        self.entries.len()
    }

    /// The entries, in the order they were first recorded.
    pub fn values(&self) -> (v: &Vec<Metadata>)
        ensures
            metas_view(v@) == self@,
    {
        &self.entries
    }
}

/// The table that recording each of `metas` in turn gives.
pub fn table_from_entries(metas: Vec<Metadata>) -> (t: MetadataTable)
    ensures
        t@ == table_from(metas_view(metas@)),
{
    let ghost all = metas_view(metas@);
    let mut t = MetadataTable::new();
    let n = metas.len();
    let mut i: usize = 0;
    while i < n
        invariant
            n == metas@.len(),
            all == metas_view(metas@),
            i <= n,
            t@ == table_from(all.take(i as int)),
        decreases n - i,
    {
        assert(all.take(i + 1).drop_last() =~= all.take(i as int));
        t.insert(metas[i].clone());
        i = i + 1;
    }
    assert(all.take(n as int) =~= all);
    t
}

// ── Claimed names ───────────────────────────────────────────────────────────

/// Whether a device's references mention `k`.
pub open spec fn refs_mention(r: DeviceRefsView, k: Seq<char>) -> bool {
    ||| k == r.state
    ||| k == r.config
    ||| k == r.kernel_bus
    ||| r.backends.contains(k)
    ||| r.middleware == Some(k)
}

/// Whether an entry is a device that refers to `k`.
pub open spec fn entry_claims(m: MetadataView, k: Seq<char>) -> bool {
    match m.payload {
        PayloadView::Device { refs } => refs_mention(refs, k),
        _ => false,
    }
}

/// Whether `k` is among the first `n` of `v`.
pub open spec fn in_prefix(v: Seq<Seq<char>>, n: int, k: Seq<char>) -> bool {
    exists|j: int| 0 <= j < n && v[j] == k
}

/// Whether some device among the entries refers to `k`.
pub open spec fn is_claimed(s: Seq<MetadataView>, k: Seq<char>) -> bool {
    exists|i: int| 0 <= i < s.len() && entry_claims(#[trigger] s[i], k)
}

pub(crate) fn contains_string(v: &Vec<String>, s: &String) -> (b: bool)
    ensures
        b == strings_view(v@).contains(s@),
{
    let mut i: usize = 0;
    while i < v.len()
        invariant
            i <= v@.len(),
            forall|j: int| 0 <= j < i ==> v@[j]@ != s@,
        decreases v@.len() - i,
    {
        if v[i] == *s {
            assert(strings_view(v@)[i as int] == s@);
            return true;
        }
        i = i + 1;
    }
    assert forall|j: int| 0 <= j < v@.len() implies strings_view(v@)[j] != s@ by {
        assert(strings_view(v@)[j] == v@[j]@);
    }
    false
}

fn insert_unique(v: &mut Vec<String>, s: String)
    requires
        strings_view(old(v)@).no_duplicates(),
    ensures
        strings_view(final(v)@).no_duplicates(),
        forall|k: Seq<char>| strings_view(final(v)@).contains(k)
            <==> (strings_view(old(v)@).contains(k) || k == s@),
{
    let ghost before = strings_view(v@);
    if !contains_string(v, &s) {
        let ghost sv = s@;
        v.push(s);
        assert(strings_view(v@) =~= before.push(sv));
        assert forall|k: Seq<char>| strings_view(v@).contains(k)
            <==> (before.contains(k) || k == sv) by {
            if before.contains(k) {
                let j = choose|j: int| 0 <= j < before.len() && before[j] == k;
                assert(strings_view(v@)[j] == k);
            }
            if k == sv {
                assert(strings_view(v@)[before.len() as int] == k);
            }
        }
    }
}

/// Every name that some device refers to (its state, configuration, kernel
/// bus, backends and middleware), each once.
pub fn claimed_names(table: &MetadataTable) -> (r: Vec<String>)
    ensures
        strings_view(r@).no_duplicates(),
        forall|k: Seq<char>| strings_view(r@).contains(k) <==> is_claimed(table@, k),
{
    let entries = table.values();
    let ghost s = table@;
    let mut claimed: Vec<String> = Vec::new();
    let mut i: usize = 0;
    while i < entries.len()
        invariant
            i <= entries@.len(),
            metas_view(entries@) == s,
            strings_view(claimed@).no_duplicates(),
            forall|k: Seq<char>| strings_view(claimed@).contains(k)
                <==> is_claimed(s.take(i as int), k),
        decreases entries@.len() - i,
    {
        let ghost before = strings_view(claimed@);
        assert(s[i as int] == entries@[i as int]@);
        match &entries[i].payload {
            ComponentPayload::Device { refs } => {
                insert_unique(&mut claimed, refs.state.clone());
                let ghost c1 = strings_view(claimed@);
                insert_unique(&mut claimed, refs.config.clone());
                let ghost c2 = strings_view(claimed@);
                insert_unique(&mut claimed, refs.kernel_bus.clone());
                let ghost bv = strings_view(refs.backends@);
                assert forall|k: Seq<char>| strings_view(claimed@).contains(k)
                    <==> (before.contains(k) || k == refs.state@ || k == refs.config@
                        || k == refs.kernel_bus@ || in_prefix(bv, 0, k)) by {
                    assert(c1.contains(k) <==> (before.contains(k) || k == refs.state@));
                    assert(c2.contains(k) <==> (c1.contains(k) || k == refs.config@));
                    assert(strings_view(claimed@).contains(k) <==> (c2.contains(k)
                        || k == refs.kernel_bus@));
                }
                let mut b: usize = 0;
                while b < refs.backends.len()
                    invariant
                        b <= refs.backends@.len(),
                        bv == strings_view(refs.backends@),
                        strings_view(claimed@).no_duplicates(),
                        forall|k: Seq<char>|
                            #![trigger strings_view(claimed@).contains(k)]
                            strings_view(claimed@).contains(k)
                            <==> (before.contains(k) || k == refs.state@ || k == refs.config@
                                || k == refs.kernel_bus@ || in_prefix(bv, b as int, k)),
                    decreases refs.backends@.len() - b,
                {
                    let ghost prev = strings_view(claimed@);
                    let item = refs.backends[b].clone();
                    assert(item@ == bv[b as int]);
                    insert_unique(&mut claimed, item);
                    assert forall|k: Seq<char>| strings_view(claimed@).contains(k)
                        <==> (before.contains(k) || k == refs.state@ || k == refs.config@
                            || k == refs.kernel_bus@ || in_prefix(bv, b + 1, k)) by {
                        assert(strings_view(claimed@).contains(k) <==> (prev.contains(k)
                            || k == bv[b as int]));
                        assert(prev.contains(k) <==> (before.contains(k) || k == refs.state@
                            || k == refs.config@ || k == refs.kernel_bus@
                            || in_prefix(bv, b as int, k)));
                        if in_prefix(bv, b + 1, k) {
                            let j = choose|j: int| 0 <= j < b + 1 && bv[j] == k;
                            if j < b {
                                assert(in_prefix(bv, b as int, k));
                            }
                        }
                        if in_prefix(bv, b as int, k) {
                            let j = choose|j: int| 0 <= j < b && bv[j] == k;
                            assert(in_prefix(bv, b + 1, k));
                        }
                        if k == bv[b as int] {
                            assert(in_prefix(bv, b + 1, k));
                        }
                    }
                    b = b + 1;
                }
                assert forall|k: Seq<char>| in_prefix(bv, bv.len() as int, k) <==> bv.contains(k) by {
                    if bv.contains(k) {
                        let j = choose|j: int| 0 <= j < bv.len() && bv[j] == k;
                        assert(in_prefix(bv, bv.len() as int, k));
                    }
                }
                match &refs.middleware {
                    Some(m) => {
                        insert_unique(&mut claimed, m.clone());
                    },
                    None => {},
                }
                assert(s[i as int].payload == PayloadView::Device { refs: refs@ });
                assert forall|k: Seq<char>| strings_view(claimed@).contains(k)
                    <==> (before.contains(k) || entry_claims(s[i as int], k)) by {
                    assert(s[i as int].payload->refs.backends == strings_view(refs.backends@));
                }
            },
            _ => {
                assert(!(s[i as int].payload is Device));
            },
        }
        proof {
            assert(s.take(i + 1) =~= s.take(i as int).push(s[i as int]));
            assert forall|k: Seq<char>| strings_view(claimed@).contains(k)
                <==> is_claimed(s.take(i + 1), k) by {
                let t = s.take(i + 1);
                assert(strings_view(claimed@).contains(k) <==> (before.contains(k)
                    || entry_claims(s[i as int], k)));
                assert(before.contains(k) <==> is_claimed(s.take(i as int), k));
                if is_claimed(s.take(i as int), k) {
                    let j = choose|j: int| 0 <= j < i && entry_claims(#[trigger] s.take(i as int)[j], k);
                    assert(t[j] == s.take(i as int)[j]);
                }
                if is_claimed(t, k) {
                    let j = choose|j: int| 0 <= j < i + 1 && entry_claims(#[trigger] t[j], k);
                    if j < i {
                        assert(s.take(i as int)[j] == t[j]);
                    } else {
                        assert(t[j] == s[i as int]);
                    }
                }
                if entry_claims(s[i as int], k) {
                    assert(t[i as int] == s[i as int]);
                }
            }
        }
        i = i + 1;
    }
    assert(s.take(s.len() as int) =~= s);
    claimed
}
} // verus!

//! The catalog: every port of every sink, in the order in which the audio
//! server reports them.

use crate::source::{OutputTarget, PaOutput};
use vstd::prelude::*;
use vstd::seq_lib::lemma_flatten_concat;

verus! {

/// Mathematical model of a port as the audio server reports it.
pub struct Port {
    pub name: Option<Seq<char>>,
    pub description: Option<Seq<char>>,
}

/// Mathematical model of a sink as the audio server reports it.
pub struct Sink {
    pub name: Option<Seq<char>>,
    pub description: Option<Seq<char>>,
    pub ports: Seq<Port>,
    pub active_port_name: Option<Seq<char>>,
}

/// A port of a sink, as the audio server reports it. Either text may be
/// missing.
#[derive(Debug, PartialEq, Eq)]
pub struct PortInfo {
    pub name: Option<String>,
    pub description: Option<String>,
}

/// A sink with its ports, as the audio server reports it. `active_port_name`
/// is the name of the port that the sink currently plays through, if the
/// server names one.
#[derive(Debug, PartialEq, Eq)]
pub struct SinkInfo {
    pub name: Option<String>,
    pub description: Option<String>,
    pub ports: Vec<PortInfo>,
    pub active_port_name: Option<String>,
}

impl View for PortInfo {
    type V = Port;

    open spec fn view(&self) -> Port {
        Port { name: self.name.deep_view(), description: self.description.deep_view() }
    }
}

impl DeepView for PortInfo {
    type V = Port;

    open spec fn deep_view(&self) -> Port {
        self@
    }
}

impl View for SinkInfo {
    type V = Sink;

    open spec fn view(&self) -> Sink {
        Sink {
            name: self.name.deep_view(),
            description: self.description.deep_view(),
            ports: self.ports.deep_view(),
            active_port_name: self.active_port_name.deep_view(),
        }
    }
}

impl DeepView for SinkInfo {
    type V = Sink;

    open spec fn deep_view(&self) -> Sink {
        self@
    }
}

/// One item of the server's answer to the request for all sinks.
pub enum ListItem {
    /// The next sink.
    Item(SinkInfo),
    /// The list is complete.
    End,
    /// The server could not deliver the list.
    Error,
}

/// Mathematical model of one item of the server's answer.
pub enum ListEntry {
    Item(Sink),
    End,
    Error,
}

impl View for ListItem {
    type V = ListEntry;

    open spec fn view(&self) -> ListEntry {
        match self {
            ListItem::Item(sink) => ListEntry::Item(sink@),
            ListItem::End => ListEntry::End,
            ListItem::Error => ListEntry::Error,
        }
    }
}

/// Mathematical model of what the server has answered so far.
pub struct Listing {
    pub sinks: Seq<Sink>,
    pub failed: bool,
}

impl Listing {
    /// The answer before its first item.
    pub open spec fn empty() -> Listing {
        Listing { sinks: Seq::empty(), failed: false }
    }

    /// The answer after one more item: a sink joins the list at its end, an
    /// error is noted, the end mark changes nothing.
    pub open spec fn after(self, entry: ListEntry) -> Listing {
        match entry {
            ListEntry::Item(sink) => Listing { sinks: self.sinks.push(sink), ..self },
            ListEntry::End => self,
            ListEntry::Error => Listing { failed: true, ..self },
        }
    }
}

/// What the server has answered so far to the request for all sinks: the
/// sinks in the order in which they came, and whether the server reported that
/// it could not deliver the list.
pub struct SinkList {
    pub sinks: Vec<SinkInfo>,
    pub failed: bool,
}

impl View for SinkList {
    type V = Listing;

    open spec fn view(&self) -> Listing {
        Listing { sinks: self.sinks.deep_view(), failed: self.failed }
    }
}

impl SinkList {
    /// The answer before its first item.
    pub fn new() -> (list: SinkList)
        ensures
            list@ == Listing::empty(),
    {
        let list = SinkList { sinks: Vec::new(), failed: false };
        assert(list.sinks.deep_view() =~= Seq::<Sink>::empty());
        list
    }

    /// Takes the next item of the server's answer.
    pub fn record(&mut self, item: ListItem)
        ensures
            final(self)@ == old(self)@.after(item@),
    {
        match item {
            ListItem::Item(sink) => {
                let ghost model = sink@;
                self.sinks.push(sink);
                assert(self.sinks.deep_view() =~= old(self).sinks.deep_view().push(model));
            },
            ListItem::End => {},
            ListItem::Error => {
                self.failed = true;
            },
        }
    }
}

/// The text that stands in for a name or description that the server left
/// out.
pub open spec fn placeholder() -> Seq<char> {
    "N/A"@
}

/// A reported text, or the placeholder where it is missing.
pub open spec fn shown(text: Option<Seq<char>>) -> Seq<char> {
    match text {
        Some(t) => t,
        None => placeholder(),
    }
}

/// The target that stands for `port` of `sink`. It is active where its sink
/// name is the server's default sink and its port name is the sink's active
/// port.
pub open spec fn target_of(sink: Sink, port: Port, default_sink: Option<Seq<char>>) -> OutputTarget {
    OutputTarget {
        sink_name: shown(sink.name),
        sink_description: shown(sink.description),
        port_name: shown(port.name),
        port_description: shown(port.description),
        is_active: default_sink == Some(shown(sink.name)) && sink.active_port_name == Some(
            shown(port.name),
        ),
    }
}

/// The targets of one sink: one for each of its ports, in their order.
pub open spec fn sink_targets(sink: Sink, default_sink: Option<Seq<char>>) -> Seq<OutputTarget> {
    Seq::new(sink.ports.len(), |p: int| target_of(sink, sink.ports[p], default_sink))
}

/// The catalog of a list of sinks: the targets of each sink, sink after sink.
pub open spec fn catalog_of(sinks: Seq<Sink>, default_sink: Option<Seq<char>>) -> Seq<
    OutputTarget,
> {
    sinks.map_values(|sink: Sink| sink_targets(sink, default_sink)).flatten()
}

/// Row `i` holds an active target, and no row before it does.
pub open spec fn is_first_active(catalog: Seq<OutputTarget>, i: int) -> bool {
    &&& 0 <= i < catalog.len()
    &&& catalog[i].is_active
    &&& forall|j: int| 0 <= j < i ==> !(#[trigger] catalog[j]).is_active
}

/// Position of the first active target of a catalog, if it has one.
pub open spec fn first_active(catalog: Seq<OutputTarget>) -> Option<nat> {
    if exists|i: int| is_first_active(catalog, i) {
        Some((choose|i: int| is_first_active(catalog, i)) as nat)
    } else {
        None
    }
}

/// A reported text, or the placeholder where it is missing.
fn shown_text(text: &Option<String>) -> (t: String)
    ensures
        t@ == shown(text.deep_view()),
{
    match text {
        Some(t) => t.clone(),
        None => String::from_str("N/A"),
    }
}

/// Whether `name` is the text that `wanted` holds.
fn is_named(wanted: &Option<String>, name: &String) -> (same: bool)
    ensures
        same == (wanted.deep_view() == Some(name@)),
{
    match wanted {
        Some(w) => *w == *name,
        None => false,
    }
}

/// The target that stands for `port` of `sink`.
fn make_target(sink: &SinkInfo, port: &PortInfo, default_sink: &Option<String>) -> (target:
    PaOutput)
    ensures
        target@ == target_of(sink@, port@, default_sink.deep_view()),
{
    let sink_name = shown_text(&sink.name);
    let port_name = shown_text(&port.name);
    let is_active = is_named(default_sink, &sink_name) && is_named(
        &sink.active_port_name,
        &port_name,
    );
    PaOutput {
        sink_name,
        sink_description: shown_text(&sink.description),
        port_name,
        port_description: shown_text(&port.description),
        is_active,
    }
}

/// Flattens the sinks that the server reported into the catalog: one target
/// for each port of each sink, in the server's order, with the target marked
/// active whose sink is `default_sink` and whose port is that sink's active
/// port. With no default sink no target is active.
pub fn build_catalog(sinks: &Vec<SinkInfo>, default_sink: &Option<String>) -> (catalog: Vec<
    PaOutput,
>)
    ensures
        catalog.deep_view() == catalog_of(sinks.deep_view(), default_sink.deep_view()),
{
    let ghost reported = sinks.deep_view();
    let ghost wanted = default_sink.deep_view();
    let mut catalog: Vec<PaOutput> = Vec::new();
    let mut i: usize = 0;
    while i < sinks.len()
        invariant
            i <= sinks.len(),
            reported == sinks.deep_view(),
            wanted == default_sink.deep_view(),
            catalog.deep_view() == catalog_of(reported.take(i as int), wanted),
        decreases sinks.len() - i,
    {
        let sink = &sinks[i];
        let ghost before = catalog.deep_view();
        let mut p: usize = 0;
        while p < sink.ports.len()
            invariant
                p <= sink.ports.len(),
                wanted == default_sink.deep_view(),
                catalog.deep_view() == before + sink_targets(sink@, wanted).take(p as int),
            decreases sink.ports.len() - p,
        {
            let target = make_target(sink, &sink.ports[p], default_sink);
            let ghost shorter = catalog.deep_view();
            catalog.push(target);
            assert(catalog.deep_view() =~= shorter.push(target@));
            p += 1;
        }
        proof {
            assert(reported.take(i + 1) =~= reported.take(i as int).push(sink@));
            lemma_catalog_push(reported.take(i as int), sink@, wanted);
        }
        i += 1;
    }
    assert(reported.take(i as int) =~= reported);
    catalog
}

/// The list lines of the catalog, row by row.
pub fn list_lines(catalog: &Vec<PaOutput>) -> (lines: Vec<String>)
    ensures
        lines.deep_view() == catalog.deep_view().map_values(
            |target: OutputTarget| crate::source::list_line(target),
        ),
{
    let mut lines: Vec<String> = Vec::new();
    let mut i: usize = 0;
    while i < catalog.len()
        invariant
            i <= catalog.len(),
            lines.deep_view() == catalog.deep_view().take(i as int).map_values(
                |target: OutputTarget| crate::source::list_line(target),
            ),
        decreases catalog.len() - i,
    {
        let line = catalog[i].to_list_line();
        let ghost shorter = lines.deep_view();
        lines.push(line);
        assert(lines.deep_view() =~= shorter.push(line@));
        i += 1;
    }
    lines
}

/// Position of the first active target of the catalog.
pub fn active_index(catalog: &Vec<PaOutput>) -> (index: Option<usize>)
    ensures
        match index {
            Some(i) => is_first_active(catalog.deep_view(), i as int),
            None => forall|j: int|
                0 <= j < catalog.len() ==> !(#[trigger] catalog.deep_view()[j]).is_active,
        },
        index == match first_active(catalog.deep_view()) {
            Some(i) => Some(i as usize),
            None => None,
        },
{
    let ghost targets = catalog.deep_view();
    let mut i: usize = 0;
    while i < catalog.len()
        invariant
            i <= catalog.len(),
            targets == catalog.deep_view(),
            forall|j: int| 0 <= j < i ==> !(#[trigger] targets[j]).is_active,
        decreases catalog.len() - i,
    {
        if catalog[i].is_active {
            proof {
                lemma_first_active_is_unique(targets, i as int);
            }
            return Some(i);
        }
        i += 1;
    }
    proof {
        lemma_first_active_of_inactive(targets);
    }
    None
}

/// Adding a sink at the end adds its targets at the end.
pub proof fn lemma_catalog_push(sinks: Seq<Sink>, sink: Sink, default_sink: Option<Seq<char>>)
    ensures
        catalog_of(sinks.push(sink), default_sink) == catalog_of(sinks, default_sink)
            + sink_targets(sink, default_sink),
{
    let per_sink = |s: Sink| sink_targets(s, default_sink);
    assert(sinks.push(sink).map_values(per_sink) =~= sinks.map_values(per_sink).push(
        per_sink(sink),
    ));
    sinks.map_values(per_sink).lemma_flatten_push(per_sink(sink));
}

/// The catalog of two lists of sinks in a row is their two catalogs in a row.
pub proof fn lemma_catalog_concat(
    front: Seq<Sink>,
    back: Seq<Sink>,
    default_sink: Option<Seq<char>>,
)
    ensures
        catalog_of(front + back, default_sink) == catalog_of(front, default_sink) + catalog_of(
            back,
            default_sink,
        ),
{
    let per_sink = |s: Sink| sink_targets(s, default_sink);
    assert((front + back).map_values(per_sink) =~= front.map_values(per_sink) + back.map_values(
        per_sink,
    ));
    lemma_flatten_concat(front.map_values(per_sink), back.map_values(per_sink));
}

/// A catalog has one first active target at most, and `first_active` names
/// it.
pub proof fn lemma_first_active_is_unique(catalog: Seq<OutputTarget>, i: int)
    requires
        is_first_active(catalog, i),
    ensures
        first_active(catalog) == Some(i as nat),
{
    let chosen = choose|k: int| is_first_active(catalog, k);
    assert(chosen == i);
}

/// Where no target is active, `first_active` names none.
pub proof fn lemma_first_active_of_inactive(catalog: Seq<OutputTarget>)
    requires
        forall|j: int| 0 <= j < catalog.len() ==> !(#[trigger] catalog[j]).is_active,
    ensures
        first_active(catalog) is None,
{
}

/// Where a target is active, some active target is the first.
pub proof fn lemma_some_active_is_first(catalog: Seq<OutputTarget>, j: int)
    requires
        0 <= j < catalog.len(),
        catalog[j].is_active,
    ensures
        exists|i: int| 0 <= i <= j && is_first_active(catalog, i),
    decreases j,
{
    if exists|k: int| 0 <= k < j && (#[trigger] catalog[k]).is_active {
        let k = choose|k: int| 0 <= k < j && (#[trigger] catalog[k]).is_active;
        lemma_some_active_is_first(catalog, k);
    } else {
        assert(is_first_active(catalog, j));
    }
}

/// `first_active` names an active target that no active target precedes, and
/// it names none only where no target is active.
pub proof fn law_first_active(catalog: Seq<OutputTarget>)
    ensures
        match first_active(catalog) {
            Some(i) => is_first_active(catalog, i as int),
            None => forall|j: int| 0 <= j < catalog.len() ==> !(#[trigger] catalog[j]).is_active,
        },
{
    if first_active(catalog) is None {
        assert forall|j: int| 0 <= j < catalog.len() implies !(#[trigger] catalog[j]).is_active by {
            if catalog[j].is_active {
                lemma_some_active_is_first(catalog, j);
            }
        }
    }
}

/// A sink without ports adds no target to the catalog, wherever it stands
/// among the sinks.
pub proof fn law_sink_without_ports_adds_nothing(
    before: Seq<Sink>,
    sink: Sink,
    after: Seq<Sink>,
    default_sink: Option<Seq<char>>,
)
    requires
        sink.ports.len() == 0,
    ensures
        sink_targets(sink, default_sink).len() == 0,
        catalog_of(before.push(sink) + after, default_sink) == catalog_of(
            before + after,
            default_sink,
        ),
{
    lemma_catalog_push(before, sink, default_sink);
    lemma_catalog_concat(before.push(sink), after, default_sink);
    lemma_catalog_concat(before, after, default_sink);
}

/// Every target of the catalog stands for one port of one sink.
pub proof fn law_target_origin(sinks: Seq<Sink>, default_sink: Option<Seq<char>>, k: int)
    requires
        0 <= k < catalog_of(sinks, default_sink).len(),
    ensures
        exists|a: int, p: int|
            0 <= a < sinks.len() && 0 <= p < sinks[a].ports.len() && catalog_of(
                sinks,
                default_sink,
            )[k] == #[trigger] target_of(sinks[a], sinks[a].ports[p], default_sink),
    decreases sinks.len(),
{
    if sinks.len() > 0 {
        let front = sinks.drop_last();
        let last = sinks.last();
        assert(sinks =~= front.push(last));
        lemma_catalog_push(front, last, default_sink);
        let offset = catalog_of(front, default_sink).len() as int;
        if k < offset {
            law_target_origin(front, default_sink, k);
        } else {
            let a = sinks.len() - 1;
            assert(catalog_of(sinks, default_sink)[k] == target_of(
                sinks[a],
                sinks[a].ports[k - offset],
                default_sink,
            ));
        }
    }
}

/// No two targets of the catalog are active.
pub open spec fn at_most_one_active(catalog: Seq<OutputTarget>) -> bool {
    forall|i: int, j: int|
        0 <= i < catalog.len() && 0 <= j < catalog.len() && (#[trigger] catalog[i]).is_active && (
        #[trigger] catalog[j]).is_active ==> i == j
}

/// No two sinks show the same name, and no two ports of one sink do.
pub open spec fn names_are_distinct(sinks: Seq<Sink>) -> bool {
    &&& forall|a: int, b: int|
        0 <= a < b < sinks.len() ==> shown((#[trigger] sinks[a]).name) != shown(
            (#[trigger] sinks[b]).name,
        )
    &&& forall|a: int, p: int, q: int|
        0 <= a < sinks.len() && 0 <= p < q < sinks[a].ports.len() ==> shown(
            (#[trigger] sinks[a].ports[p]).name,
        ) != shown((#[trigger] sinks[a].ports[q]).name)
}

/// Where the server names its sinks apart, and the ports of each sink, at
/// most one target of the catalog is active.
pub proof fn law_at_most_one_active(sinks: Seq<Sink>, default_sink: Option<Seq<char>>)
    requires
        names_are_distinct(sinks),
    ensures
        at_most_one_active(catalog_of(sinks, default_sink)),
    decreases sinks.len(),
{
    if sinks.len() > 0 {
        let front = sinks.drop_last();
        let last = sinks.last();
        let catalog = catalog_of(sinks, default_sink);
        let offset = catalog_of(front, default_sink).len() as int;
        assert(sinks =~= front.push(last));
        lemma_catalog_push(front, last, default_sink);
        // Among the targets of the sinks before the last, the claim holds by induction.
        assert(names_are_distinct(front));
        law_at_most_one_active(front, default_sink);
        assert forall|i: int, j: int|
            0 <= i < catalog.len() && 0 <= j < catalog.len() && (#[trigger] catalog[i]).is_active
                && (#[trigger] catalog[j]).is_active implies i == j by {
            // Two active targets of the last sink have the name of its active port, so
            // they stand for one port. An active target of an earlier sink and one of
            // the last would give both sinks the name of the default sink.
            if i < offset <= j {
                law_target_origin(front, default_sink, i);
            }
            if j < offset <= i {
                law_target_origin(front, default_sink, j);
            }
        }
    }
}

} // verus!

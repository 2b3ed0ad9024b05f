//! The rule database: which host names are blocked.
//!
//! The database is a set of 64-bit hashes of lowercased host names. It is
//! rebuilt as a whole from the host lists and the exceptions; a query only
//! reads it.

use crate::host_line::{
    accepted_host, address_prefix_len, comment_index, contains_whitespace, has_prefix,
    host_token, parsed_host, skip_whitespace, string_view, trim_end_index,
};
use crate::text::{chars_of, hash_host, host_hash, lowercased, to_lowercase};
use std::collections::HashSet;
use vstd::prelude::*;

verus! {

broadcast use vstd::std_specs::hash::group_hash_axioms;

/// What a host entry asks for.
#[derive(Clone, Copy, Debug, PartialEq, Eq, PartialOrd, Structural)]
pub enum NativeHostState {
    IGNORE,
    DENY,
    ALLOW,
}

/// One entry of a host list: `data` is the path of a hosts file or a single
/// host name.
#[derive(Clone, Debug)]
pub struct NativeHost {
    pub title: String,
    pub data: String,
    pub state: NativeHostState,
}

/// A host entry together with what was read from the file that its `data`
/// names: `lines` holds the lines read before the first read error, or is
/// `None` where `data` names no file that could be opened.
#[derive(Clone, Debug)]
pub struct HostItem {
    pub host: NativeHost,
    pub lines: Option<Vec<String>>,
}

/// One step of a build: a host name and what to do with it.
pub struct HostRule {
    pub state: NativeHostState,
    pub name: Seq<char>,
}

/// A [`HostItem`] as a mathematical value.
pub struct HostItemModel {
    pub state: NativeHostState,
    pub data: Seq<char>,
    pub lines: Option<Seq<Seq<char>>>,
}

impl View for NativeHost {
    type V = HostRule;

    open spec fn view(&self) -> HostRule {
        HostRule { state: self.state, name: self.data@ }
    }
}

/// The views of some lines.
pub open spec fn lines_view(lines: Seq<String>) -> Seq<Seq<char>> {
    lines.map_values(|l: String| l@)
}

impl View for HostItem {
    type V = HostItemModel;

    open spec fn view(&self) -> HostItemModel {
        HostItemModel {
            state: self.host.state,
            data: self.host.data@,
            lines: match self.lines {
                Some(lines) => Some(lines_view(lines@)),
                None => None,
            },
        }
    }
}

/// The views of some host entries.
pub open spec fn hosts_view(hosts: Seq<NativeHost>) -> Seq<HostRule> {
    hosts.map_values(|h: NativeHost| h@)
}

/// The views of some host items.
pub open spec fn items_view(items: Seq<HostItem>) -> Seq<HostItemModel> {
    items.map_values(|i: HostItem| i@)
}

/// The set after one rule: DENY inserts the hash of the lowercased name,
/// ALLOW removes it, IGNORE changes nothing.
pub open spec fn apply_rule(set: Set<u64>, rule: HostRule) -> Set<u64> {
    match rule.state {
        NativeHostState::IGNORE => set,
        NativeHostState::DENY => set.insert(host_hash(lowercased(rule.name))),
        NativeHostState::ALLOW => set.remove(host_hash(lowercased(rule.name))),
    }
}

/// The set after some rules, applied first to last.
pub open spec fn apply_rules(set: Set<u64>, rules: Seq<HostRule>) -> Set<u64>
    decreases rules.len(),
{
    if rules.len() == 0 {
        set
    } else {
        apply_rule(apply_rules(set, rules.drop_last()), rules.last())
    }
}

/// The rules that the lines of a hosts file give under `state`: one for
/// each line that holds a host name.
pub open spec fn file_rules(state: NativeHostState, lines: Seq<Seq<char>>) -> Seq<HostRule>
    decreases lines.len(),
{
    if lines.len() == 0 {
        Seq::empty()
    } else {
        let before = file_rules(state, lines.drop_last());
        match parsed_host(lines.last()) {
            Some(name) => before.push(HostRule { state, name }),
            None => before,
        }
    }
}

/// The rules that one item gives: those of its file, or its `data` as a
/// single host name where there is no file.
pub open spec fn item_rules(item: HostItemModel) -> Seq<HostRule> {
    match item.lines {
        Some(lines) => file_rules(item.state, lines),
        None => seq![HostRule { state: item.state, name: item.data }],
    }
}

/// The set after the items whose state is `pass`, applied first to last.
pub open spec fn apply_items(set: Set<u64>, items: Seq<HostItemModel>, pass: NativeHostState) -> Set<
    u64,
>
    decreases items.len(),
{
    if items.len() == 0 {
        set
    } else {
        let before = apply_items(set, items.drop_last(), pass);
        if items.last().state == pass {
            apply_rules(before, item_rules(items.last()))
        } else {
            before
        }
    }
}

/// The test for the state `pass`.
pub open spec fn has_state(pass: NativeHostState) -> spec_fn(HostRule) -> bool {
    |h: HostRule| h.state == pass
}

/// The rules of `hosts` whose state is `pass`, in their order.
pub open spec fn rules_with_state(hosts: Seq<HostRule>, pass: NativeHostState) -> Seq<HostRule> {
    hosts.filter(has_state(pass))
}

/// `hosts` without the IGNORE entries, stably sorted by state: the DENY
/// entries in their order, then the ALLOW entries in theirs.
pub open spec fn sorted_by_state(hosts: Seq<HostRule>) -> Seq<HostRule> {
    rules_with_state(hosts, NativeHostState::DENY) + rules_with_state(
        hosts,
        NativeHostState::ALLOW,
    )
}

/// The test for the state `pass`, on items.
pub open spec fn item_has_state(pass: NativeHostState) -> spec_fn(HostItemModel) -> bool {
    |i: HostItemModel| i.state == pass
}

/// The items of `items` whose state is `pass`, in their order.
pub open spec fn items_with_state(items: Seq<HostItemModel>, pass: NativeHostState) -> Seq<
    HostItemModel,
> {
    items.filter(item_has_state(pass))
}

/// `items` without the IGNORE entries, stably sorted by state: the DENY
/// items in their order, then the ALLOW items in theirs.
pub open spec fn sorted_items(items: Seq<HostItemModel>) -> Seq<HostItemModel> {
    items_with_state(items, NativeHostState::DENY) + items_with_state(
        items,
        NativeHostState::ALLOW,
    )
}

/// The rules that some items give, item after item.
pub open spec fn all_item_rules(items: Seq<HostItemModel>) -> Seq<HostRule>
    decreases items.len(),
{
    if items.len() == 0 {
        Seq::empty()
    } else {
        all_item_rules(items.drop_last()) + item_rules(items.last())
    }
}

/// The rules of a build, in the order in which they are applied: those of
/// the sorted items, then the sorted exceptions.
pub open spec fn build_rules(items: Seq<HostItemModel>, exceptions: Seq<HostRule>) -> Seq<
    HostRule,
> {
    all_item_rules(sorted_items(items)) + sorted_by_state(exceptions)
}

/// The set that a build leaves: its rules, applied to the empty set.
pub open spec fn built_set(items: Seq<HostItemModel>, exceptions: Seq<HostRule>) -> Set<u64> {
    apply_rules(Set::empty(), build_rules(items, exceptions))
}

/// The blocked host names, as a set of hashes.
pub struct RuleDatabase {
    blocked_hosts: HashSet<u64>,
}

impl View for RuleDatabase {
    type V = Set<u64>;

    closed spec fn view(&self) -> Set<u64> {
        self.blocked_hosts@
    }
}

impl RuleDatabase {
    /// Reads one line of a hosts file: the host name it gives, lowercased,
    /// or `None` for a line that gives none.
    pub fn parse_line(line: &str) -> (host: Option<String>)
        ensures
            string_view(host) == parsed_host(line@),
    {
        let chars = chars_of(line);
        let end_of_line = trim_end_index(&chars);
        let end_of_host = comment_index(&chars, end_of_line);
        let ghost content = chars@.take(end_of_host as int);
        let mut start_of_host: usize = 0;
        let ipv4_loopback = chars_of("127.0.0.1");
        let ipv6_loopback = chars_of("::1");
        let no_route = chars_of("0.0.0.0");
        if has_prefix(&chars, end_of_host, &ipv4_loopback) {
            start_of_host = ipv4_loopback.len();
        } else if has_prefix(&chars, end_of_host, &ipv6_loopback) {
            start_of_host = ipv6_loopback.len();
        } else if has_prefix(&chars, end_of_host, &no_route) {
            start_of_host = no_route.len();
        }
        proof {
            reveal_strlit("127.0.0.1");
            reveal_strlit("::1");
            reveal_strlit("0.0.0.0");
        }
        assert(start_of_host == address_prefix_len(content));
        if start_of_host > 0 {
            start_of_host = skip_whitespace(&chars, start_of_host, end_of_host);
        }
        assert(chars@.subrange(start_of_host as int, end_of_host as int) =~= host_token(line@))
            by {
            let skipped = address_prefix_len(content) as int;
            assert(content.skip(skipped) =~= chars@.subrange(skipped, end_of_host as int));
            assert(content =~= chars@.subrange(0, end_of_host as int));
        }
        let token = line.substring_char(start_of_host, end_of_host);
        Self::accept_host(to_lowercase(token))
    }

    /// Takes a lowercased host token as a host name, unless it is empty or
    /// holds white space.
    pub fn accept_host(host: String) -> (accepted: Option<String>)
        ensures
            string_view(accepted) == accepted_host(host@),
    {
        if host.as_str().unicode_len() == 0 || contains_whitespace(host.as_str()) {
            None
        } else {
            Some(host)
        }
    }

    /// A database that blocks nothing.
    pub fn new() -> (database: RuleDatabase)
        ensures
            database@ == Set::<u64>::empty(),
    {
        RuleDatabase { blocked_hosts: HashSet::new() }
    }

    /// Applies one host name to `set`: DENY inserts the hash of the
    /// lowercased name, ALLOW removes it, IGNORE leaves the set as it is.
    pub fn add_host(&self, set: &mut HashSet<u64>, state: &NativeHostState, data: &str)
        ensures
            final(set)@ == apply_rule(old(set)@, HostRule { state: *state, name: data@ }),
    {
        let lowered = to_lowercase(data);
        let hash = hash_host(lowered.as_str());
        match state {
            NativeHostState::IGNORE => {},
            NativeHostState::DENY => {
                set.insert(hash);
            },
            NativeHostState::ALLOW => {
                set.remove(&hash);
            },
        }
    }

    /// Applies the lines of a hosts file to `set` under the state of `host`:
    /// every line that gives a host name is applied, in order; the others
    /// are passed over.
    pub fn load_file(&self, set: &mut HashSet<u64>, host: &NativeHost, lines: &Vec<String>)
        ensures
            final(set)@ == apply_rules(old(set)@, file_rules(host.state, lines_view(lines@))),
    {
        let ghost all = lines_view(lines@);
        let mut count: usize = 0;
        assert(all.take(0) =~= Seq::<Seq<char>>::empty());
        while count < lines.len()
            invariant
                count <= lines@.len(),
                all == lines_view(lines@),
                set@ == apply_rules(old(set)@, file_rules(host.state, all.take(count as int))),
            decreases lines@.len() - count,
        {
            let ghost before = file_rules(host.state, all.take(count as int));
            assert(all.take(count + 1).drop_last() =~= all.take(count as int));
            assert(all.take(count + 1).last() == lines@[count as int]@);
            let data = Self::parse_line(lines[count].as_str());
            match data {
                Some(name) => {
                    self.add_host(set, &host.state, name.as_str());
                    assert(before.push(HostRule { state: host.state, name: name@ }).drop_last()
                        =~= before);
                },
                None => {},
            }
            count += 1;
        }
        assert(all.take(count as int) =~= all);
    }

    /// Applies one item to `set`: nothing for an IGNORE item; the lines of
    /// its file where there is one; else its `data` as a host name.
    pub fn load_item(&self, set: &mut HashSet<u64>, item: &HostItem)
        ensures
            final(set)@ == (if item.host.state == NativeHostState::IGNORE {
                old(set)@
            } else {
                apply_rules(old(set)@, item_rules(item@))
            }),
    {
        if item.host.state == NativeHostState::IGNORE {
            return ;
        }
        match &item.lines {
            Some(lines) => {
                self.load_file(set, &item.host, lines);
            },
            None => {
                self.add_host(set, &item.host.state, item.host.data.as_str());
                let ghost rule = HostRule { state: item.host.state, name: item.host.data@ };
                assert(seq![rule].drop_last() =~= Seq::<HostRule>::empty());
                assert(apply_rules(old(set)@, seq![rule].drop_last()) == old(set)@);
            },
        }
    }

    /// Applies the items whose state is `pass`, in order.
    fn load_items_with_state(
        &self,
        set: &mut HashSet<u64>,
        items: &Vec<HostItem>,
        pass: NativeHostState,
    )
        requires
            pass != NativeHostState::IGNORE,
        ensures
            final(set)@ == apply_items(old(set)@, items_view(items@), pass),
    {
        let ghost all = items_view(items@);
        let mut i: usize = 0;
        assert(all.take(0) =~= Seq::<HostItemModel>::empty());
        while i < items.len()
            invariant
                i <= items@.len(),
                pass != NativeHostState::IGNORE,
                all == items_view(items@),
                set@ == apply_items(old(set)@, all.take(i as int), pass),
            decreases items@.len() - i,
        {
            assert(all.take(i + 1).drop_last() =~= all.take(i as int));
            assert(all.take(i + 1).last() == items@[i as int]@);
            if items[i].host.state == pass {
                self.load_item(set, &items[i]);
            }
            i += 1;
        }
        assert(all.take(i as int) =~= all);
    }

    /// Applies the host names whose state is `pass`, in order.
    fn add_hosts_with_state(
        &self,
        set: &mut HashSet<u64>,
        hosts: &Vec<NativeHost>,
        pass: NativeHostState,
    )
        ensures
            final(set)@ == apply_rules(old(set)@, rules_with_state(hosts_view(hosts@), pass)),
    {
        let ghost all = hosts_view(hosts@);
        let mut i: usize = 0;
        proof {
            assert(all.take(0) =~= Seq::<HostRule>::empty());
            reveal(Seq::filter);
        }
        while i < hosts.len()
            invariant
                i <= hosts@.len(),
                all == hosts_view(hosts@),
                set@ == apply_rules(old(set)@, rules_with_state(all.take(i as int), pass)),
            decreases hosts@.len() - i,
        {
            proof {
                lemma_rules_with_state_step(all, i as int, pass);
                assert(all[i as int] == hosts@[i as int]@);
            }
            if hosts[i].state == pass {
                self.add_host(set, &hosts[i].state, hosts[i].data.as_str());
                assert(rules_with_state(all.take(i as int), pass).push(all[i as int]).drop_last()
                    =~= rules_with_state(all.take(i as int), pass));
            }
            i += 1;
        }
        assert(all.take(i as int) =~= all);
    }

    /// Rebuilds the database from the host lists and the exceptions.
    ///
    /// IGNORE entries are passed over. The items are applied DENY entries
    /// first, then ALLOW entries, each kind in its order; the exceptions
    /// follow, ordered likewise. The new set replaces the old one as a whole.
    pub fn initialize(&mut self, host_items: Vec<HostItem>, host_exceptions: Vec<NativeHost>)
        ensures
            final(self)@ == built_set(items_view(host_items@), hosts_view(host_exceptions@)),
    {
        let mut new_set: HashSet<u64> = HashSet::new();
        self.load_items_with_state(&mut new_set, &host_items, NativeHostState::DENY);
        self.load_items_with_state(&mut new_set, &host_items, NativeHostState::ALLOW);
        let ghost allowed = new_set@;
        self.add_hosts_with_state(&mut new_set, &host_exceptions, NativeHostState::DENY);
        self.add_hosts_with_state(&mut new_set, &host_exceptions, NativeHostState::ALLOW);
        proof {
            let exceptions = hosts_view(host_exceptions@);
            lemma_apply_rules_concat(
                allowed,
                rules_with_state(exceptions, NativeHostState::DENY),
                rules_with_state(exceptions, NativeHostState::ALLOW),
            );
            lemma_build_by_passes(items_view(host_items@), exceptions);
        }
        self.blocked_hosts = new_set;
    }

    /// Whether `host` is blocked: whether the hash of its lowercased form is
    /// in the set.
    pub fn is_blocked(&self, host: &str) -> (blocked: bool)
        ensures
            blocked == self@.contains(host_hash(lowercased(host@))),
    {
        let lowered = to_lowercase(host);
        let hash = hash_host(lowered.as_str());
        self.blocked_hosts.contains(&hash)
    }
}

/// Whether `rule` decides the membership of `hash`: it is no IGNORE rule and
/// its lowercased name hashes to `hash`.
pub open spec fn rule_decides(rule: HostRule, hash: u64) -> bool {
    rule.state != NativeHostState::IGNORE && host_hash(lowercased(rule.name)) == hash
}

/// Taking one more host into account adds it to the selection where its
/// state is the selected one.
pub proof fn lemma_rules_with_state_step(hosts: Seq<HostRule>, i: int, pass: NativeHostState)
    requires
        0 <= i < hosts.len(),
    ensures
        rules_with_state(hosts.take(i + 1), pass) == (if hosts[i].state == pass {
            rules_with_state(hosts.take(i), pass).push(hosts[i])
        } else {
            rules_with_state(hosts.take(i), pass)
        }),
{
    reveal(Seq::filter);
    assert(hosts.take(i + 1).drop_last() =~= hosts.take(i));
}

/// Applying two runs of rules one after the other is applying their
/// concatenation.
pub proof fn lemma_apply_rules_concat(set: Set<u64>, first: Seq<HostRule>, second: Seq<HostRule>)
    ensures
        apply_rules(apply_rules(set, first), second) == apply_rules(set, first + second),
    decreases second.len(),
{
    if second.len() == 0 {
        assert(first + second =~= first);
    } else {
        lemma_apply_rules_concat(set, first, second.drop_last());
        assert((first + second).drop_last() =~= first + second.drop_last());
        assert((first + second).last() == second.last());
    }
}

/// The rules of two runs of items are the rules of the first run followed
/// by those of the second.
pub proof fn lemma_all_item_rules_concat(first: Seq<HostItemModel>, second: Seq<HostItemModel>)
    ensures
        all_item_rules(first + second) == all_item_rules(first) + all_item_rules(second),
    decreases second.len(),
{
    if second.len() == 0 {
        assert(first + second =~= first);
        assert(all_item_rules(first) + all_item_rules(second) =~= all_item_rules(first));
    } else {
        lemma_all_item_rules_concat(first, second.drop_last());
        assert((first + second).drop_last() =~= first + second.drop_last());
        assert((first + second).last() == second.last());
        assert((all_item_rules(first) + all_item_rules(second.drop_last())) + item_rules(
            second.last(),
        ) =~= all_item_rules(first) + (all_item_rules(second.drop_last()) + item_rules(
            second.last(),
        )));
    }
}

/// A pass over the items of one state applies the rules of those items, in
/// order.
pub proof fn lemma_pass_applies_rules(
    set: Set<u64>,
    items: Seq<HostItemModel>,
    pass: NativeHostState,
)
    ensures
        apply_items(set, items, pass) == apply_rules(
            set,
            all_item_rules(items_with_state(items, pass)),
        ),
    decreases items.len(),
{
    reveal(Seq::filter);
    if items.len() > 0 {
        lemma_pass_applies_rules(set, items.drop_last(), pass);
        let selected = items_with_state(items.drop_last(), pass);
        if items.last().state == pass {
            assert(items_with_state(items, pass) == selected.push(items.last()));
            assert(selected.push(items.last()).drop_last() =~= selected);
            lemma_apply_rules_concat(set, all_item_rules(selected), item_rules(items.last()));
        }
    }
}

/// A build applies the DENY items, then the ALLOW items, then the sorted
/// exceptions.
pub proof fn lemma_build_by_passes(items: Seq<HostItemModel>, exceptions: Seq<HostRule>)
    ensures
        built_set(items, exceptions) == apply_rules(
            apply_items(
                apply_items(Set::empty(), items, NativeHostState::DENY),
                items,
                NativeHostState::ALLOW,
            ),
            sorted_by_state(exceptions),
        ),
{
    let empty = Set::<u64>::empty();
    let denies = items_with_state(items, NativeHostState::DENY);
    let allows = items_with_state(items, NativeHostState::ALLOW);
    let denied = apply_items(empty, items, NativeHostState::DENY);
    lemma_pass_applies_rules(empty, items, NativeHostState::DENY);
    lemma_pass_applies_rules(denied, items, NativeHostState::ALLOW);
    lemma_all_item_rules_concat(denies, allows);
    lemma_apply_rules_concat(empty, all_item_rules(denies), all_item_rules(allows));
    lemma_apply_rules_concat(empty, all_item_rules(sorted_items(items)), sorted_by_state(exceptions));
}

/// A build from no items and no exceptions blocks nothing.
pub proof fn lemma_empty_build_blocks_nothing()
    ensures
        built_set(Seq::empty(), Seq::empty()) == Set::<u64>::empty(),
{
    reveal(Seq::filter);
    let none = Seq::<HostRule>::empty();
    let no_items = Seq::<HostItemModel>::empty();
    assert(sorted_by_state(none) =~= none);
    assert(sorted_items(no_items) =~= no_items);
    assert(build_rules(no_items, none) =~= none);
}

/// A name that no rule decides keeps its membership.
pub proof fn lemma_undecided_name_keeps_membership(set: Set<u64>, rules: Seq<HostRule>, hash: u64)
    requires
        forall|j: int| 0 <= j < rules.len() ==> !rule_decides(#[trigger] rules[j], hash),
    ensures
        apply_rules(set, rules).contains(hash) == set.contains(hash),
    decreases rules.len(),
{
    if rules.len() > 0 {
        assert forall|j: int| 0 <= j < rules.drop_last().len() implies !rule_decides(
            #[trigger] rules.drop_last()[j],
            hash,
        ) by {
            assert(rules.drop_last()[j] == rules[j]);
        }
        lemma_undecided_name_keeps_membership(set, rules.drop_last(), hash);
        assert(!rule_decides(rules[rules.len() - 1], hash));
    }
}

/// The last rule that decides a name decides its membership: after any run
/// of rules, the name is blocked if and only if the last DENY or ALLOW rule
/// on it is a DENY rule.
pub proof fn lemma_last_rule_decides(set: Set<u64>, rules: Seq<HostRule>, last: int, hash: u64)
    requires
        0 <= last < rules.len(),
        rule_decides(rules[last], hash),
        forall|j: int| last < j < rules.len() ==> !rule_decides(#[trigger] rules[j], hash),
    ensures
        apply_rules(set, rules).contains(hash) == (rules[last].state == NativeHostState::DENY),
    decreases rules.len(),
{
    if last == rules.len() - 1 {
    } else {
        assert forall|j: int| last < j < rules.drop_last().len() implies !rule_decides(
            #[trigger] rules.drop_last()[j],
            hash,
        ) by {
            assert(rules.drop_last()[j] == rules[j]);
        }
        assert(rules.drop_last()[last] == rules[last]);
        lemma_last_rule_decides(set, rules.drop_last(), last, hash);
        assert(!rule_decides(rules[rules.len() - 1], hash));
    }
}

/// Every host with the selected state is among the selected rules, and
/// every selected rule has that state.
proof fn lemma_rules_with_state_members(hosts: Seq<HostRule>, pass: NativeHostState)
    ensures
        forall|j: int|
            0 <= j < rules_with_state(hosts, pass).len() ==> (#[trigger] rules_with_state(
                hosts,
                pass,
            )[j]).state == pass,
        forall|i: int|
            0 <= i < hosts.len() && (#[trigger] hosts[i]).state == pass ==> rules_with_state(
                hosts,
                pass,
            ).contains(hosts[i]),
{
    let pred = has_state(pass);
    assert forall|j: int| 0 <= j < rules_with_state(hosts, pass).len() implies (
    #[trigger] rules_with_state(hosts, pass)[j]).state == pass by {
        hosts.lemma_filter_pred(pred, j);
    }
    assert forall|i: int| 0 <= i < hosts.len() && (#[trigger] hosts[i]).state == pass implies
        rules_with_state(hosts, pass).contains(hosts[i]) by {
        hosts.lemma_filter_contains(pred, i);
    }
}

/// In a sorted run of rules an ALLOW rule is final: whatever else the run
/// holds, a name that it allows is not blocked afterwards.
pub proof fn lemma_allow_overrides_deny(set: Set<u64>, hosts: Seq<HostRule>, allowed: int)
    requires
        0 <= allowed < hosts.len(),
        hosts[allowed].state == NativeHostState::ALLOW,
    ensures
        !apply_rules(set, sorted_by_state(hosts)).contains(
            host_hash(lowercased(hosts[allowed].name)),
        ),
{
    let hash = host_hash(lowercased(hosts[allowed].name));
    let sorted = sorted_by_state(hosts);
    let denies = rules_with_state(hosts, NativeHostState::DENY);
    let allows = rules_with_state(hosts, NativeHostState::ALLOW);
    lemma_rules_with_state_members(hosts, NativeHostState::ALLOW);
    assert(allows.contains(hosts[allowed]));
    let k = choose|k: int| 0 <= k < allows.len() && allows[k] == hosts[allowed];
    // the last rule of the run that decides the name lies among the ALLOW rules
    let last = choose_last_deciding(sorted, denies.len() + k, hash);
    assert(sorted[last] == allows[last - denies.len()]);
    lemma_last_rule_decides(set, sorted, last, hash);
}

/// The index of the last rule at or behind `from` that decides `hash`.
proof fn choose_last_deciding(rules: Seq<HostRule>, from: int, hash: u64) -> (last: int)
    requires
        0 <= from < rules.len(),
        rule_decides(rules[from], hash),
    ensures
        from <= last < rules.len(),
        rule_decides(rules[last], hash),
        forall|j: int| last < j < rules.len() ==> !rule_decides(#[trigger] rules[j], hash),
    decreases rules.len() - from,
{
    if exists|j: int| from < j < rules.len() && rule_decides(#[trigger] rules[j], hash) {
        let next = choose|j: int| from < j < rules.len() && rule_decides(#[trigger] rules[j], hash);
        choose_last_deciding(rules, next, hash)
    } else {
        from
    }
}

/// Whether `rule` is a rule of state `state` on the name with hash `hash`.
pub open spec fn rule_on(rule: HostRule, state: NativeHostState, hash: u64) -> bool {
    rule.state == state && host_hash(lowercased(rule.name)) == hash
}

/// Only a DENY rule blocks: a name that no DENY rule of a run is about is
/// blocked after the run only if it was before.
pub proof fn lemma_only_deny_blocks(set: Set<u64>, rules: Seq<HostRule>, hash: u64)
    requires
        forall|j: int|
            0 <= j < rules.len() ==> !rule_on(#[trigger] rules[j], NativeHostState::DENY, hash),
    ensures
        apply_rules(set, rules).contains(hash) ==> set.contains(hash),
    decreases rules.len(),
{
    if rules.len() > 0 {
        assert forall|j: int| 0 <= j < rules.drop_last().len() implies !rule_on(
            #[trigger] rules.drop_last()[j],
            NativeHostState::DENY,
            hash,
        ) by {
            assert(rules.drop_last()[j] == rules[j]);
        }
        lemma_only_deny_blocks(set, rules.drop_last(), hash);
        assert(!rule_on(rules[rules.len() - 1], NativeHostState::DENY, hash));
    }
}

/// Only an ALLOW rule unblocks: a name that no ALLOW rule of a run is about
/// stays blocked through the run if it was before.
pub proof fn lemma_only_allow_unblocks(set: Set<u64>, rules: Seq<HostRule>, hash: u64)
    requires
        forall|j: int|
            0 <= j < rules.len() ==> !rule_on(#[trigger] rules[j], NativeHostState::ALLOW, hash),
    ensures
        set.contains(hash) ==> apply_rules(set, rules).contains(hash),
    decreases rules.len(),
{
    if rules.len() > 0 {
        assert forall|j: int| 0 <= j < rules.drop_last().len() implies !rule_on(
            #[trigger] rules.drop_last()[j],
            NativeHostState::ALLOW,
            hash,
        ) by {
            assert(rules.drop_last()[j] == rules[j]);
        }
        lemma_only_allow_unblocks(set, rules.drop_last(), hash);
        assert(!rule_on(rules[rules.len() - 1], NativeHostState::ALLOW, hash));
    }
}

/// Every selected rule is one of the hosts.
proof fn lemma_rules_with_state_come_from_hosts(hosts: Seq<HostRule>, pass: NativeHostState)
    ensures
        forall|j: int|
            0 <= j < rules_with_state(hosts, pass).len() ==> hosts.contains(
                #[trigger] rules_with_state(hosts, pass)[j],
            ),
    decreases hosts.len(),
{
    reveal(Seq::filter);
    if hosts.len() > 0 {
        lemma_rules_with_state_come_from_hosts(hosts.drop_last(), pass);
        let before = rules_with_state(hosts.drop_last(), pass);
        assert forall|j: int| 0 <= j < rules_with_state(hosts, pass).len() implies hosts.contains(
            #[trigger] rules_with_state(hosts, pass)[j],
        ) by {
            if j < before.len() {
                assert(rules_with_state(hosts, pass)[j] == before[j]);
                assert(hosts.drop_last().contains(before[j]));
                let k = choose|k: int|
                    0 <= k < hosts.drop_last().len() && hosts.drop_last()[k] == before[j];
                assert(hosts[k] == before[j]);
            } else {
                assert(rules_with_state(hosts, pass)[j] == hosts[hosts.len() - 1]);
            }
        }
    }
}

/// Every rule of the sorted run is one of the hosts.
proof fn lemma_sorted_rules_come_from_hosts(hosts: Seq<HostRule>)
    ensures
        forall|j: int|
            0 <= j < sorted_by_state(hosts).len() ==> hosts.contains(
                #[trigger] sorted_by_state(hosts)[j],
            ),
{
    lemma_rules_with_state_come_from_hosts(hosts, NativeHostState::DENY);
    lemma_rules_with_state_come_from_hosts(hosts, NativeHostState::ALLOW);
    let denies = rules_with_state(hosts, NativeHostState::DENY);
    let allows = rules_with_state(hosts, NativeHostState::ALLOW);
    assert forall|j: int| 0 <= j < sorted_by_state(hosts).len() implies hosts.contains(
        #[trigger] sorted_by_state(hosts)[j],
    ) by {
        if j < denies.len() {
            assert(sorted_by_state(hosts)[j] == denies[j]);
        } else {
            assert(sorted_by_state(hosts)[j] == allows[j - denies.len()]);
        }
    }
}

/// Every rule that an item gives has the item's state.
proof fn lemma_file_rules_state(state: NativeHostState, lines: Seq<Seq<char>>)
    ensures
        forall|j: int|
            0 <= j < file_rules(state, lines).len() ==> (#[trigger] file_rules(
                state,
                lines,
            )[j]).state == state,
    decreases lines.len(),
{
    if lines.len() > 0 {
        lemma_file_rules_state(state, lines.drop_last());
    }
}

/// A pass over the ALLOW items blocks nothing that was not blocked.
proof fn lemma_allow_pass_blocks_nothing(set: Set<u64>, items: Seq<HostItemModel>, hash: u64)
    ensures
        apply_items(set, items, NativeHostState::ALLOW).contains(hash) ==> set.contains(hash),
    decreases items.len(),
{
    if items.len() > 0 {
        lemma_allow_pass_blocks_nothing(set, items.drop_last(), hash);
        if items.last().state == NativeHostState::ALLOW {
            let before = apply_items(set, items.drop_last(), NativeHostState::ALLOW);
            match items.last().lines {
                Some(lines) => lemma_file_rules_state(NativeHostState::ALLOW, lines),
                None => {},
            }
            lemma_only_deny_blocks(before, item_rules(items.last()), hash);
        }
    }
}

/// After a pass over the ALLOW items, the name of an ALLOW item that
/// stands for itself is not blocked.
proof fn lemma_allow_pass_unblocks(set: Set<u64>, items: Seq<HostItemModel>, allowed: int)
    requires
        0 <= allowed < items.len(),
        items[allowed].state == NativeHostState::ALLOW,
        items[allowed].lines is None,
    ensures
        !apply_items(set, items, NativeHostState::ALLOW).contains(
            host_hash(lowercased(items[allowed].data)),
        ),
    decreases items.len(),
{
    let hash = host_hash(lowercased(items[allowed].data));
    let before = apply_items(set, items.drop_last(), NativeHostState::ALLOW);
    if allowed == items.len() - 1 {
        let rule = HostRule { state: NativeHostState::ALLOW, name: items[allowed].data };
        reveal_with_fuel(apply_rules, 2);
        assert(seq![rule].drop_last() =~= Seq::<HostRule>::empty());
        assert(seq![rule].last() == rule);
        assert(apply_rules(before, seq![rule]) == apply_rule(before, rule));
    } else {
        assert(items.drop_last()[allowed] == items[allowed]);
        lemma_allow_pass_unblocks(set, items.drop_last(), allowed);
        if items.last().state == NativeHostState::ALLOW {
            match items.last().lines {
                Some(lines) => lemma_file_rules_state(NativeHostState::ALLOW, lines),
                None => {},
            }
            lemma_only_deny_blocks(before, item_rules(items.last()), hash);
        }
    }
}

/// An ALLOW exception always wins: whatever the items and the other
/// exceptions say, a build does not block a name that an exception allows.
pub proof fn lemma_allowed_exception_is_not_blocked(
    items: Seq<HostItemModel>,
    exceptions: Seq<HostRule>,
    allowed: int,
)
    requires
        0 <= allowed < exceptions.len(),
        exceptions[allowed].state == NativeHostState::ALLOW,
    ensures
        !built_set(items, exceptions).contains(host_hash(lowercased(exceptions[allowed].name))),
{
    let denied = apply_items(Set::empty(), items, NativeHostState::DENY);
    let before = apply_items(denied, items, NativeHostState::ALLOW);
    lemma_build_by_passes(items, exceptions);
    lemma_allow_overrides_deny(before, exceptions, allowed);
}

/// An ALLOW item wins over every DENY item: a build does not block the name
/// of an ALLOW item that stands for itself, unless a DENY exception asks for
/// it.
pub proof fn lemma_allowed_item_is_not_blocked(
    items: Seq<HostItemModel>,
    exceptions: Seq<HostRule>,
    allowed: int,
)
    requires
        0 <= allowed < items.len(),
        items[allowed].state == NativeHostState::ALLOW,
        items[allowed].lines is None,
        forall|j: int|
            0 <= j < exceptions.len() ==> !rule_on(
                #[trigger] exceptions[j],
                NativeHostState::DENY,
                host_hash(lowercased(items[allowed].data)),
            ),
    ensures
        !built_set(items, exceptions).contains(host_hash(lowercased(items[allowed].data))),
{
    let hash = host_hash(lowercased(items[allowed].data));
    let denied = apply_items(Set::empty(), items, NativeHostState::DENY);
    let before = apply_items(denied, items, NativeHostState::ALLOW);
    lemma_build_by_passes(items, exceptions);
    lemma_allow_pass_unblocks(denied, items, allowed);
    lemma_sorted_rules_come_from_hosts(exceptions);
    let sorted = sorted_by_state(exceptions);
    assert forall|j: int| 0 <= j < sorted.len() implies !rule_on(
        #[trigger] sorted[j],
        NativeHostState::DENY,
        hash,
    ) by {
        assert(exceptions.contains(sorted[j]));
        let k = choose|k: int| 0 <= k < exceptions.len() && exceptions[k] == sorted[j];
        assert(!rule_on(exceptions[k], NativeHostState::DENY, hash));
    }
    lemma_only_deny_blocks(before, sorted, hash);
}

/// A DENY exception blocks its name unless an ALLOW exception is about the
/// same name.
pub proof fn lemma_denied_exception_is_blocked(
    items: Seq<HostItemModel>,
    exceptions: Seq<HostRule>,
    denied: int,
)
    requires
        0 <= denied < exceptions.len(),
        exceptions[denied].state == NativeHostState::DENY,
        forall|j: int|
            0 <= j < exceptions.len() ==> !rule_on(
                #[trigger] exceptions[j],
                NativeHostState::ALLOW,
                host_hash(lowercased(exceptions[denied].name)),
            ),
    ensures
        built_set(items, exceptions).contains(host_hash(lowercased(exceptions[denied].name))),
{
    let hash = host_hash(lowercased(exceptions[denied].name));
    let start = apply_items(
        apply_items(Set::empty(), items, NativeHostState::DENY),
        items,
        NativeHostState::ALLOW,
    );
    let denies = rules_with_state(exceptions, NativeHostState::DENY);
    let allows = rules_with_state(exceptions, NativeHostState::ALLOW);
    lemma_build_by_passes(items, exceptions);
    lemma_rules_with_state_members(exceptions, NativeHostState::DENY);
    lemma_rules_with_state_come_from_hosts(exceptions, NativeHostState::ALLOW);
    assert(denies.contains(exceptions[denied]));
    let k = choose|k: int| 0 <= k < denies.len() && denies[k] == exceptions[denied];
    let last = choose_last_deciding(denies, k, hash);
    lemma_last_rule_decides(start, denies, last, hash);
    assert forall|j: int| 0 <= j < allows.len() implies !rule_on(
        #[trigger] allows[j],
        NativeHostState::ALLOW,
        hash,
    ) by {
        assert(exceptions.contains(allows[j]));
        let i = choose|i: int| 0 <= i < exceptions.len() && exceptions[i] == allows[j];
        assert(!rule_on(exceptions[i], NativeHostState::ALLOW, hash));
    }
    lemma_only_allow_unblocks(apply_rules(start, denies), allows, hash);
    lemma_apply_rules_concat(start, denies, allows);
}

/// A sorted run holds no IGNORE rule, and none of its DENY rules follows an
/// ALLOW rule.
pub proof fn lemma_sorted_by_state_is_sorted(hosts: Seq<HostRule>)
    ensures
        forall|j: int|
            0 <= j < sorted_by_state(hosts).len() ==> (#[trigger] sorted_by_state(hosts)[j]).state
                != NativeHostState::IGNORE,
        forall|i: int, j: int|
            0 <= i < j < sorted_by_state(hosts).len() ==> !((#[trigger] sorted_by_state(
                hosts,
            )[i]).state == NativeHostState::ALLOW && (#[trigger] sorted_by_state(hosts)[j]).state
                == NativeHostState::DENY),
{
    lemma_rules_with_state_members(hosts, NativeHostState::DENY);
    lemma_rules_with_state_members(hosts, NativeHostState::ALLOW);
    let denies = rules_with_state(hosts, NativeHostState::DENY);
    let allows = rules_with_state(hosts, NativeHostState::ALLOW);
    assert forall|j: int| 0 <= j < sorted_by_state(hosts).len() implies (
    #[trigger] sorted_by_state(hosts)[j]).state == (if j < denies.len() {
        NativeHostState::DENY
    } else {
        NativeHostState::ALLOW
    }) by {
        if j < denies.len() {
            assert(sorted_by_state(hosts)[j] == denies[j]);
        } else {
            assert(sorted_by_state(hosts)[j] == allows[j - denies.len()]);
        }
    }
}

/// The last rule of a build that decides a name decides whether the build
/// blocks it.
pub proof fn lemma_last_build_rule_decides(
    items: Seq<HostItemModel>,
    exceptions: Seq<HostRule>,
    last: int,
    hash: u64,
)
    requires
        0 <= last < build_rules(items, exceptions).len(),
        rule_decides(build_rules(items, exceptions)[last], hash),
        forall|j: int|
            last < j < build_rules(items, exceptions).len() ==> !rule_decides(
                #[trigger] build_rules(items, exceptions)[j],
                hash,
            ),
    ensures
        built_set(items, exceptions).contains(hash) == (build_rules(items, exceptions)[last].state
            == NativeHostState::DENY),
{
    lemma_last_rule_decides(Set::empty(), build_rules(items, exceptions), last, hash);
}

/// A build does not block a name that none of its rules decides.
pub proof fn lemma_undecided_name_is_not_blocked(
    items: Seq<HostItemModel>,
    exceptions: Seq<HostRule>,
    hash: u64,
)
    requires
        forall|j: int|
            0 <= j < build_rules(items, exceptions).len() ==> !rule_decides(
                #[trigger] build_rules(items, exceptions)[j],
                hash,
            ),
    ensures
        !built_set(items, exceptions).contains(hash),
{
    lemma_undecided_name_keeps_membership(Set::empty(), build_rules(items, exceptions), hash);
}

} // verus!

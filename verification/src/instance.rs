//! Game instances: their identity, the version they run, and their order
//! in a listing.

use vstd::prelude::*;
use vstd::seq_lib::{to_multiset_insert, to_multiset_remove};
use crate::config::instance::{InstanceConfig, InstanceRuntime, ModLoaderType};
use crate::error::Error;
use crate::outside::{parse_uuid, uuid_parse};
use crate::text::{lemma_lex_total, lex_le, push_str, str_eq, str_le, string_of};

verus! {

/// An instance: its configuration, whether it is installed, and the
/// identifier that names its directory.
#[derive(Debug)]
pub struct Instance {
    pub config: InstanceConfig,
    pub installed: bool,
    pub id: u128,
}

/// The orders in which instances can be listed.
#[derive(Clone, Copy, Debug, PartialEq, Eq, Structural)]
pub enum SortBy {
    Name,
}

/// The name of the instance that follows the latest release.
pub open spec fn latest_release_name() -> Seq<char> {
    "Latest Release"@
}

/// The name of the instance that follows the latest snapshot.
pub open spec fn latest_snapshot_name() -> Seq<char> {
    "Latest Snapshot"@
}

/// The identifier of a new instance: the two reserved names have fixed
/// identifiers, any other name gets the one that is offered.
pub open spec fn instance_id_of(name: Seq<char>, fresh: u128) -> u128 {
    if name == latest_release_name() {
        114514
    } else if name == latest_snapshot_name() {
        1919810
    } else {
        fresh
    }
}

/// The identifier under which a new instance of the given name is created.
/// `fresh` is an identifier that no instance has yet.
pub fn new_instance_id(name: &str, fresh: u128) -> (r: u128)
    ensures
        r == instance_id_of(name@, fresh),
{
    if str_eq(name, "Latest Release") {
        114514
    } else if str_eq(name, "Latest Snapshot") {
        1919810
    } else {
        fresh
    }
}

/// The identifier of the version that a runtime launches: the Minecraft
/// version itself without a mod loader, else the name under which the
/// loader files its descriptor. A loader without a version has none.
pub open spec fn version_id_of(runtime: InstanceRuntime) -> Option<Seq<char>> {
    match runtime.mod_loader_type {
        None => Some(runtime.minecraft@),
        Some(loader) => match runtime.mod_loader_version {
            None => None,
            Some(version) => Some(
                match loader {
                    ModLoaderType::Fabric => "fabric-loader-"@ + version@ + "-"@
                        + runtime.minecraft@,
                    ModLoaderType::Quilt => "quilt-loader-"@ + version@ + "-"@ + runtime.minecraft@,
                    ModLoaderType::Forge => runtime.minecraft@ + "-forge-"@ + version@,
                    ModLoaderType::Neoforged => "neoforged-"@ + version@,
                },
            ),
        },
    }
}

impl Instance {
    /// The identifier of the version that this instance launches.
    pub fn get_version_id(&self) -> (r: Result<String, Error>)
        ensures
            match r {
                Ok(id) => version_id_of(self.config.runtime) == Some(id@),
                Err(e) => version_id_of(self.config.runtime) is None && e is InvalidInstanceConfig,
            },
    {
        let runtime = &self.config.runtime;
        let loader = match runtime.mod_loader_type {
            None => {
                return Ok(runtime.minecraft.clone());
            },
            Some(loader) => loader,
        };
        let version = match &runtime.mod_loader_version {
            Some(version) => version,
            None => {
                return Err(Error::InvalidInstanceConfig);
            },
        };
        let mut out: Vec<char> = Vec::new();
        match loader {
            ModLoaderType::Fabric => {
                push_str(&mut out, "fabric-loader-");
                push_str(&mut out, version.as_str());
                push_str(&mut out, "-");
                push_str(&mut out, runtime.minecraft.as_str());
            },
            ModLoaderType::Quilt => {
                push_str(&mut out, "quilt-loader-");
                push_str(&mut out, version.as_str());
                push_str(&mut out, "-");
                push_str(&mut out, runtime.minecraft.as_str());
            },
            ModLoaderType::Forge => {
                push_str(&mut out, runtime.minecraft.as_str());
                push_str(&mut out, "-forge-");
                push_str(&mut out, version.as_str());
            },
            ModLoaderType::Neoforged => {
                push_str(&mut out, "neoforged-");
                push_str(&mut out, version.as_str());
            },
        }
        proof {
            assert(out@ =~= version_id_of(self.config.runtime)->0);
        }
        Ok(string_of(&out))
    }
}

/// The configuration file of an instance: `instance.toml` in its directory.
pub fn instance_config_path(instance_root: &str, sep: char) -> (r: String)
    ensures
        r@ == crate::folder::join_path_seq(instance_root@, "instance.toml"@, sep),
{
    crate::folder::join_path(instance_root, "instance.toml", sep)
}

/// The instance of a directory whose configuration could be read, if the
/// name of the directory is an identifier.
pub fn instance_of_folder(folder_name: &str, config: InstanceConfig, installed: bool) -> (r: Option<
    Instance,
>)
    ensures
        match r {
            Some(instance) => uuid_parse(folder_name@) == Some(instance.id) && instance.config
                == config && instance.installed == installed,
            None => uuid_parse(folder_name@) is None,
        },
{
    match parse_uuid(folder_name) {
        Some(id) => Some(Instance { config, installed, id }),
        None => None,
    }
}

/// The instance of a directory, given the identifier that its name was
/// read as.
pub fn instance_with_id(id: Option<u128>, config: InstanceConfig, installed: bool) -> (r: Option<
    Instance,
>)
    ensures
        r == (match id {
            Some(id) => Some(Instance { config, installed, id }),
            None => None,
        }),
{
    match id {
        Some(id) => Some(Instance { config, installed, id }),
        None => None,
    }
}

/// Each instance has a name that comes no later than the name of the next.
pub open spec fn sorted_by_name(instances: Seq<Instance>) -> bool {
    forall|i: int|
        0 <= i < instances.len() - 1 ==> lex_le(
            (#[trigger] instances[i]).config.name@,
            instances[i + 1].config.name@,
        )
}

/// No two instances have the same identifier.
pub open spec fn distinct_identifiers(instances: Seq<Instance>) -> bool {
    forall|i: int, j: int|
        0 <= i < j < instances.len() ==> (#[trigger] instances[i]).id != (
        #[trigger] instances[j]).id
}

/// No instance of `a` has the identifier of an instance of `b`.
pub open spec fn disjoint_identifiers(a: Seq<Instance>, b: Seq<Instance>) -> bool {
    forall|i: int, j: int|
        0 <= i < a.len() && 0 <= j < b.len() ==> (#[trigger] a[i]).id != (#[trigger] b[j]).id
}

/// Orders instances by name. The result holds the same instances, and no
/// identifier twice where none was there twice.
pub fn sort_instances(instances: Vec<Instance>, sort_by: SortBy) -> (r: Vec<Instance>)
    ensures
        r@.to_multiset() == instances@.to_multiset(),
        sorted_by_name(r@),
        distinct_identifiers(instances@) ==> distinct_identifiers(r@),
{
    let ghost all = instances@;
    let mut rest = instances;
    let mut out: Vec<Instance> = Vec::new();
    proof {
        assert(out@.to_multiset().add(rest@.to_multiset()) =~= all.to_multiset()) by {
            out@.to_multiset_ensures();
        }
    }
    while rest.len() > 0
        invariant
            out@.to_multiset().add(rest@.to_multiset()) == all.to_multiset(),
            sorted_by_name(out@),
            distinct_identifiers(all) ==> distinct_identifiers(out@) && distinct_identifiers(
                rest@,
            ) && disjoint_identifiers(out@, rest@),
        decreases rest.len(),
    {
        let ghost rest_before = rest@;
        let ghost out_before = out@;
        let item = rest.remove(0);
        proof {
            to_multiset_remove(rest_before, 0);
        }
        let mut p: usize = 0;
        while p < out.len() && str_le(out[p].config.name.as_str(), item.config.name.as_str())
            invariant
                p <= out@.len(),
                forall|j: int|
                    0 <= j < p ==> lex_le((#[trigger] out@[j]).config.name@, item.config.name@),
            decreases out@.len() - p,
        {
            p += 1;
        }
        proof {
            if p < out@.len() {
                lemma_lex_total(out@[p as int].config.name@, item.config.name@);
            }
            to_multiset_insert(out_before, p as int, item);
        }
        out.insert(p, item);
        proof {
            broadcast use vstd::multiset::group_multiset_axioms;

            rest_before.to_multiset_ensures();
            assert(rest_before[0] == item);
            assert(rest_before.contains(item));
            assert(rest_before.to_multiset().count(item) > 0);
            assert(out@.to_multiset().add(rest@.to_multiset()) =~= out_before.to_multiset().add(
                rest_before.to_multiset(),
            ));
            assert forall|i: int| 0 <= i < out@.len() - 1 implies lex_le(
                (#[trigger] out@[i]).config.name@,
                out@[i + 1].config.name@,
            ) by {
                if i + 1 < p {
                    assert(out@[i] == out_before[i]);
                    assert(out@[i + 1] == out_before[i + 1]);
                } else if i + 1 == p {
                    assert(out@[i] == out_before[i]);
                } else if i == p {
                    assert(out@[i + 1] == out_before[i]);
                } else {
                    assert(out@[i] == out_before[i - 1]);
                    assert(out@[i + 1] == out_before[i]);
                }
            }
            if distinct_identifiers(all) {
                assert forall|i: int, j: int| 0 <= i < j < rest@.len() implies (
                #[trigger] rest@[i]).id != (#[trigger] rest@[j]).id by {
                    assert(rest@[i] == rest_before[i + 1]);
                    assert(rest@[j] == rest_before[j + 1]);
                }
                assert forall|i: int, j: int| 0 <= i < j < out@.len() implies (
                #[trigger] out@[i]).id != (#[trigger] out@[j]).id by {
                    let a = if i < p {
                        i
                    } else {
                        i - 1
                    };
                    let b = if j < p {
                        j
                    } else {
                        j - 1
                    };
                    if i == p {
                        assert(out@[j] == out_before[b]);
                        assert(out_before[b].id != rest_before[0].id);
                    } else if j == p {
                        assert(out@[i] == out_before[a]);
                        assert(out_before[a].id != rest_before[0].id);
                    } else {
                        assert(out@[i] == out_before[a]);
                        assert(out@[j] == out_before[b]);
                    }
                }
                assert forall|i: int, j: int|
                    0 <= i < out@.len() && 0 <= j < rest@.len() implies (#[trigger] out@[i]).id
                    != (#[trigger] rest@[j]).id by {
                    assert(rest@[j] == rest_before[j + 1]);
                    if i == p {
                        assert(rest_before[0].id != rest_before[j + 1].id);
                    } else {
                        let a = if i < p {
                            i
                        } else {
                            i - 1
                        };
                        assert(out@[i] == out_before[a]);
                    }
                }
            }
        }
    }
    proof {
        rest@.to_multiset_ensures();
        assert(rest@.to_multiset() =~= vstd::multiset::Multiset::<Instance>::empty());
        assert(out@.to_multiset().add(rest@.to_multiset()) =~= out@.to_multiset());
    }
    out
}

/// What was found of one entry of the instances directory.
#[derive(Debug)]
pub struct InstanceEntry {
    /// The name of the entry.
    pub folder_name: String,
    /// Whether the entry is a directory.
    pub is_dir: bool,
    /// The configuration that its `instance.toml` holds, where the file
    /// could be read and understood.
    pub config: Option<InstanceConfig>,
    /// Whether it holds the marker of a finished install.
    pub installed: bool,
}

/// An entry is an instance: it is a directory whose name reads as an
/// identifier and whose `instance.toml` holds a configuration.
pub open spec fn is_instance(entry: InstanceEntry) -> bool {
    &&& entry.is_dir
    &&& entry.config is Some
    &&& uuid_parse(entry.folder_name@) is Some
}

/// An entry is an instance with the identifier `id`.
pub open spec fn is_instance_of(entry: InstanceEntry, id: u128) -> bool {
    is_instance(entry) && uuid_parse(entry.folder_name@) == Some(id)
}

/// The instance that an entry is.
pub open spec fn instance_of(entry: InstanceEntry) -> Instance
    recommends
        is_instance(entry),
{
    Instance {
        config: entry.config->0,
        installed: entry.installed,
        id: uuid_parse(entry.folder_name@)->0,
    }
}

/// One of `instances` has the identifier `id`.
pub open spec fn has_identifier(instances: Seq<Instance>, id: u128) -> bool {
    exists|i: int| 0 <= i < instances.len() && (#[trigger] instances[i]).id == id
}

/// Entry `k` is the first of `entries` that is an instance with its
/// identifier.
pub open spec fn is_first_of_its_identifier(entries: Seq<InstanceEntry>, k: int) -> bool {
    &&& 0 <= k < entries.len()
    &&& is_instance(entries[k])
    &&& forall|j: int|
        0 <= j < k ==> !is_instance_of(#[trigger] entries[j], uuid_parse(entries[k].folder_name@)->0)
}

/// The instances among the entries of a directory, in the order of the
/// entries. Where the names of several entries read as one identifier, the
/// first of them is the instance, and the others are left out.
pub open spec fn instances_among(entries: Seq<InstanceEntry>) -> Seq<Instance>
    decreases entries.len(),
{
    if entries.len() == 0 {
        Seq::empty()
    } else {
        let before = instances_among(entries.drop_last());
        if is_instance(entries.last()) && !has_identifier(
            before,
            instance_of(entries.last()).id,
        ) {
            before.push(instance_of(entries.last()))
        } else {
            before
        }
    }
}

/// Whether one of `instances` has the identifier `id`.
pub fn contains_identifier(instances: &Vec<Instance>, id: u128) -> (r: bool)
    ensures
        r == has_identifier(instances@, id),
{
    let mut i: usize = 0;
    while i < instances.len()
        invariant
            i <= instances.len(),
            forall|j: int| 0 <= j < i ==> (#[trigger] instances@[j]).id != id,
        decreases instances.len() - i,
    {
        if instances[i].id == id {
            return true;
        }
        i += 1;
    }
    false
}

/// The instances of a directory, given what was found of each of its
/// entries: every identifier that is the name of an entry with a
/// configuration is listed once, with the instance of the first such entry,
/// and nothing else is listed. The list is ordered by name.
pub fn list_instances(entries: Vec<InstanceEntry>, sort_by: SortBy) -> (r: Vec<Instance>)
    ensures
        r@.to_multiset() == instances_among(entries@).to_multiset(),
        sorted_by_name(r@),
        distinct_identifiers(r@),
{
    let ghost all = entries@;
    let mut rest = entries;
    let mut found: Vec<Instance> = Vec::new();
    let ghost mut seen: int = 0;
    proof {
        assert(all.take(0) =~= Seq::<InstanceEntry>::empty());
        assert(all.skip(0) =~= all);
    }
    while rest.len() > 0
        invariant
            0 <= seen <= all.len(),
            rest@ == all.skip(seen),
            found@ == instances_among(all.take(seen)),
        decreases rest.len(),
    {
        let entry = rest.remove(0);
        proof {
            assert(entry == all[seen]);
            assert(all.take(seen + 1).drop_last() =~= all.take(seen));
            assert(all.take(seen + 1).last() == entry);
            assert(rest@ =~= all.skip(seen + 1));
        }
        let InstanceEntry { folder_name, is_dir, config, installed } = entry;
        if is_dir {
            if let Some(config) = config {
                if let Some(instance) = instance_of_folder(folder_name.as_str(), config, installed) {
                    if !contains_identifier(&found, instance.id) {
                        found.push(instance);
                    }
                }
            }
        }
        proof {
            seen = seen + 1;
        }
    }
    proof {
        assert(all.take(all.len() as int) =~= all);
        lemma_instances_distinct(all);
    }
    sort_instances(found, sort_by)
}

/// An identifier is among those of the instances of a directory exactly
/// if an entry is an instance with that identifier.
pub proof fn lemma_identifiers_among(entries: Seq<InstanceEntry>, id: u128)
    ensures
        has_identifier(instances_among(entries), id) <==> exists|k: int|
            0 <= k < entries.len() && is_instance_of(#[trigger] entries[k], id),
    decreases entries.len(),
{
    let listed = instances_among(entries);
    if entries.len() > 0 {
        let head = entries.drop_last();
        let last = entries.last();
        let before = instances_among(head);
        lemma_identifiers_among(head, id);
        if has_identifier(listed, id) {
            let i = choose|i: int| 0 <= i < listed.len() && (#[trigger] listed[i]).id == id;
            if i < before.len() {
                assert(before[i].id == id);
                let k = choose|k: int| 0 <= k < head.len() && is_instance_of(#[trigger] head[k], id);
                assert(entries[k] == head[k]);
            } else {
                assert(entries[entries.len() - 1] == last);
                assert(is_instance_of(entries[entries.len() - 1], id));
            }
        }
        if exists|k: int| 0 <= k < entries.len() && is_instance_of(#[trigger] entries[k], id) {
            let k = choose|k: int| 0 <= k < entries.len() && is_instance_of(#[trigger] entries[k], id);
            if k < head.len() {
                assert(head[k] == entries[k]);
                let i = choose|i: int| 0 <= i < before.len() && (#[trigger] before[i]).id == id;
                assert(listed[i] == before[i]);
            } else if has_identifier(before, id) {
                let i = choose|i: int| 0 <= i < before.len() && (#[trigger] before[i]).id == id;
                assert(listed[i] == before[i]);
            } else {
                assert(listed[before.len() as int].id == id);
            }
        }
    }
}

/// No identifier occurs twice among the instances of a directory.
pub proof fn lemma_instances_distinct(entries: Seq<InstanceEntry>)
    ensures
        distinct_identifiers(instances_among(entries)),
    decreases entries.len(),
{
    if entries.len() > 0 {
        let before = instances_among(entries.drop_last());
        let listed = instances_among(entries);
        lemma_instances_distinct(entries.drop_last());
        assert forall|i: int, j: int| 0 <= i < j < listed.len() implies (#[trigger] listed[i]).id
            != (#[trigger] listed[j]).id by {
            assert(listed[i] == before[i]);
            if j < before.len() {
                assert(listed[j] == before[j]);
            }
        }
    }
}

/// Each instance of a directory is that of the first entry with its
/// identifier.
pub proof fn lemma_first_entry_is_listed(entries: Seq<InstanceEntry>, i: int)
    requires
        0 <= i < instances_among(entries).len(),
    ensures
        exists|k: int|
            is_first_of_its_identifier(entries, k) && instance_of(#[trigger] entries[k])
                == instances_among(entries)[i],
    decreases entries.len(),
{
    let listed = instances_among(entries);
    let head = entries.drop_last();
    let last = entries.last();
    let before = instances_among(head);
    if i < before.len() {
        lemma_first_entry_is_listed(head, i);
        let k = choose|k: int|
            is_first_of_its_identifier(head, k) && instance_of(#[trigger] head[k]) == before[i];
        assert(entries[k] == head[k]);
        assert forall|j: int| 0 <= j < k implies !is_instance_of(
            #[trigger] entries[j],
            uuid_parse(entries[k].folder_name@)->0,
        ) by {
            assert(entries[j] == head[j]);
        }
        assert(is_first_of_its_identifier(entries, k));
        assert(listed[i] == before[i]);
    } else {
        let k = entries.len() - 1;
        let id = instance_of(last).id;
        assert(entries[k] == last);
        lemma_identifiers_among(head, id);
        assert forall|j: int| 0 <= j < k implies !is_instance_of(#[trigger] entries[j], id) by {
            assert(entries[j] == head[j]);
        }
        assert(is_first_of_its_identifier(entries, k));
    }
}

/// The identifiers of a listing are exactly the identifiers that are the
/// name of an entry with a configuration, and none occurs twice. `listing`
/// is what `list_instances` returns for `entries`.
pub proof fn law_listed_identifiers(entries: Seq<InstanceEntry>, listing: Seq<Instance>, id: u128)
    requires
        listing.to_multiset() == instances_among(entries).to_multiset(),
    ensures
        has_identifier(listing, id) <==> (exists|k: int|
            0 <= k < entries.len() && is_instance_of(#[trigger] entries[k], id)),
{
    let found = instances_among(entries);
    listing.to_multiset_ensures();
    found.to_multiset_ensures();
    lemma_identifiers_among(entries, id);
    if has_identifier(listing, id) {
        let i = choose|i: int| 0 <= i < listing.len() && (#[trigger] listing[i]).id == id;
        let instance = listing[i];
        assert(listing.contains(instance));
        assert(found.to_multiset().count(instance) > 0);
        assert(found.contains(instance));
        let j = choose|j: int| 0 <= j < found.len() && found[j] == instance;
        assert(found[j].id == id);
    }
    if has_identifier(found, id) {
        let j = choose|j: int| 0 <= j < found.len() && (#[trigger] found[j]).id == id;
        let instance = found[j];
        assert(found.contains(instance));
        assert(listing.to_multiset().count(instance) > 0);
        assert(listing.contains(instance));
        let i = choose|i: int| 0 <= i < listing.len() && listing[i] == instance;
        assert(listing[i].id == id);
    }
}

} // verus!

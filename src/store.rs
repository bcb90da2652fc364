//! The container catalog: the host description and every known container,
//! kept in one object that the caller owns and persists.
use vstd::prelude::*;
use crate::container::Container;
use crate::error::RuntimeError;
use crate::text::{join_path, same_text};

verus! {

/// The catalog: host facts and the known containers, in insertion order.
pub struct SystemData {
    pub system_name: String,
    pub os_version: String,
    pub total_memory: u64,
    pub containers: Vec<Container>,
}

impl SystemData {
    /// A catalog for this host, with no container.
    pub fn new(system_name: String, os_version: String, total_memory: u64) -> (r: Self)
        ensures
            r.system_name == system_name,
            r.os_version == os_version,
            r.total_memory == total_memory,
            r.containers@.len() == 0,
    {
        SystemData { system_name, os_version, total_memory, containers: Vec::new() }
    }
}

/// The ids of a sequence of containers, in order.
pub open spec fn ids_of(cs: Seq<Container>) -> Seq<Seq<char>> {
    cs.map_values(|c: Container| c.id@)
}

/// Whether a container keeps its place when `id` is deleted.
pub open spec fn keeps(id: Seq<char>) -> spec_fn(Container) -> bool {
    |c: Container| c.id@ != id
}

/// The index of the first container with this id.
pub open spec fn first_with_id(cs: Seq<Container>, id: Seq<char>, i: int) -> bool {
    &&& 0 <= i < cs.len()
    &&& cs[i].id@ == id
    &&& forall|j: int| 0 <= j < i ==> cs[j].id@ != id
}

/// Where the catalog is persisted: `/var/lib/<program name>/metadata.json`.
pub fn get_datafile() -> (r: String)
    ensures
        r@ == crate::text::path_join(crate::text::path_join("/var/lib"@, crate::PROGRAM_NAME@), "metadata.json"@),
{
    join_path(join_path("/var/lib", crate::PROGRAM_NAME).as_str(), "metadata.json")
}

/// The ids of the known containers, in catalog order.
pub fn get_container_ids(data: &SystemData) -> (r: Vec<String>)
    ensures
        r@.map_values(|s: String| s@) == ids_of(data.containers@),
{
    let mut out: Vec<String> = Vec::new();
    let mut i: usize = 0;
    while i < data.containers.len()
        invariant
            i <= data.containers@.len(),
            out@.map_values(|s: String| s@) == ids_of(data.containers@.subrange(0, i as int)),
        decreases data.containers@.len() - i,
    {
        let ghost prev = out@;
        out.push(data.containers[i].id.clone());
        assert(out@ =~= prev.push(data.containers@[i as int].id));
        assert(out@.map_values(|s: String| s@) =~= prev.map_values(|s: String| s@).push(data.containers@[i as int].id@));
        assert(ids_of(data.containers@.subrange(0, i + 1)) =~= ids_of(data.containers@.subrange(0, i as int)).push(data.containers@[i as int].id@));
        assert(out@.map_values(|s: String| s@) =~= ids_of(data.containers@.subrange(0, i + 1)));
        i = i + 1;
    }
    assert(data.containers@.subrange(0, data.containers@.len() as int) =~= data.containers@);
    out
}

/// The first container with id `id`, or `NotFoundError` when none has it.
pub fn get_container<'a>(data: &'a SystemData, id: &str) -> (r: Result<&'a Container, RuntimeError>)
    ensures
        r matches Ok(c) ==> exists|i: int| first_with_id(data.containers@, id@, i) && *c == data.containers@[i],
        r is Err <==> forall|i: int| 0 <= i < data.containers@.len() ==> data.containers@[i].id@ != id@,
        r matches Err(e) ==> e == RuntimeError::NotFoundError,
{
    let mut i: usize = 0;
    while i < data.containers.len()
        invariant
            i <= data.containers@.len(),
            forall|j: int| 0 <= j < i ==> data.containers@[j].id@ != id@,
        decreases data.containers@.len() - i,
    {
        if same_text(data.containers[i].id.as_str(), id) {
            assert(first_with_id(data.containers@, id@, i as int));
            return Ok(&data.containers[i]);
        }
        i = i + 1;
    }
    Err(RuntimeError::NotFoundError)
}

/// Appends `container` to the catalog.
pub fn add_container(data: &mut SystemData, container: Container)
    ensures
        final(data).containers@ == old(data).containers@.push(container),
        final(data).system_name == old(data).system_name,
        final(data).os_version == old(data).os_version,
        final(data).total_memory == old(data).total_memory,
{
    data.containers.push(container);
}

/// Deletes every container with id `id`, keeping the others in order; the
/// result says whether one was deleted.
pub fn delete_container(data: &mut SystemData, id: &str) -> (r: bool)
    ensures
        final(data).containers@ == old(data).containers@.filter(keeps(id@)),
        r == exists|i: int| 0 <= i < old(data).containers@.len() && old(data).containers@[i].id@ == id@,
        final(data).system_name == old(data).system_name,
        final(data).os_version == old(data).os_version,
        final(data).total_memory == old(data).total_memory,
{
    let ghost all = data.containers@;
    let mut rest: Vec<Container> = Vec::new();
    std::mem::swap(&mut data.containers, &mut rest);
    let n = rest.len();
    let mut found = false;
    let mut i: usize = 0;
    while i < n
        invariant
            n == all.len(),
            i <= n,
            rest@ == all.subrange(i as int, n as int),
            data.containers@ == all.subrange(0, i as int).filter(keeps(id@)),
            found == exists|j: int| 0 <= j < i && all[j].id@ == id@,
            data.system_name == old(data).system_name,
            data.os_version == old(data).os_version,
            data.total_memory == old(data).total_memory,
        decreases n - i,
    {
        let c = rest.remove(0);
        assert(c == all[i as int]);
        assert(rest@ =~= all.subrange(i + 1, n as int));
        assert(all.subrange(0, i + 1).drop_last() =~= all.subrange(0, i as int));
        assert(all.subrange(0, i + 1).last() == c);
        reveal_with_fuel(Seq::filter, 1);
        assert(all.subrange(0, i + 1).filter(keeps(id@)) == (if keeps(id@)(c) {
            all.subrange(0, i as int).filter(keeps(id@)).push(c)
        } else {
            all.subrange(0, i as int).filter(keeps(id@))
        }));
        if same_text(c.id.as_str(), id) {
            found = true;
        } else {
            data.containers.push(c);
        }
        i = i + 1;
    }
    assert(all.subrange(0, n as int) =~= all);
    found
}

} // verus!

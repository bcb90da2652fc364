//! Named volumes: host directories that containers can mount.
use vstd::prelude::*;
use crate::error::RuntimeError;
use crate::fsplan::{FsOp, FsStep, steps};
use crate::runtime::{is_hyphenated_uuid, random_uuid};
use crate::text::{join_path, path_join, same_text};

verus! {

/// A named volume.
#[derive(Debug)]
pub struct Volume {
    pub id: String,
    pub name: String,
    pub driver: String,
    /// The host directory that holds the volume's data.
    pub mountpoint: String,
    pub labels: Vec<(String, String)>,
    pub options: Vec<(String, String)>,
    /// Creation time, in seconds since the Unix epoch.
    pub created_at: i64,
}

/// What a new volume is made from.
#[derive(Debug)]
pub struct VolumeConfig {
    pub name: String,
    pub driver: String,
    pub labels: Vec<(String, String)>,
    pub options: Vec<(String, String)>,
}

/// A volume as contracts read it.
pub struct VolumeView {
    pub id: Seq<char>,
    pub name: Seq<char>,
    pub driver: Seq<char>,
    pub mountpoint: Seq<char>,
    pub labels: Seq<(Seq<char>, Seq<char>)>,
    pub options: Seq<(Seq<char>, Seq<char>)>,
    pub created_at: i64,
}

/// Key-value pairs as texts.
pub open spec fn pair_texts(v: Seq<(String, String)>) -> Seq<(Seq<char>, Seq<char>)> {
    v.map_values(|p: (String, String)| (p.0@, p.1@))
}

impl View for Volume {
    type V = VolumeView;

    open spec fn view(&self) -> VolumeView {
        VolumeView {
            id: self.id@,
            name: self.name@,
            driver: self.driver@,
            mountpoint: self.mountpoint@,
            labels: pair_texts(self.labels@),
            options: pair_texts(self.options@),
            created_at: self.created_at,
        }
    }
}

/// The index of the first volume named `name`.
pub open spec fn first_named(vs: Seq<VolumeView>, name: Seq<char>, i: int) -> bool {
    &&& 0 <= i < vs.len()
    &&& vs[i].name == name
    &&& forall|j: int| 0 <= j < i ==> vs[j].name != name
}

/// Whether some volume is named `name`.
pub open spec fn has_name(vs: Seq<VolumeView>, name: Seq<char>) -> bool {
    exists|i: int| 0 <= i < vs.len() && vs[i].name == name
}

/// Whether some volume has the id `id`.
pub open spec fn has_id(vs: Seq<VolumeView>, id: Seq<char>) -> bool {
    exists|i: int| 0 <= i < vs.len() && vs[i].id == id
}

/// `<volumes dir>/<id>/data`: where a volume's data lives.
pub open spec fn volume_data_dir(dir: Seq<char>, id: Seq<char>) -> Seq<char> {
    path_join(path_join(dir, id), "data"@)
}

/// The record of a new volume `id` made from `config` at `created_at`.
pub open spec fn new_volume(config: VolumeConfig, created_at: i64, id: Seq<char>, dir: Seq<char>) -> VolumeView {
    VolumeView {
        id: id,
        name: config.name@,
        driver: config.driver@,
        mountpoint: volume_data_dir(dir, id),
        labels: pair_texts(config.labels@),
        options: pair_texts(config.options@),
        created_at: created_at,
    }
}

fn clone_pairs(v: &Vec<(String, String)>) -> (r: Vec<(String, String)>)
    ensures
        pair_texts(r@) == pair_texts(v@),
{
    let mut out: Vec<(String, String)> = Vec::new();
    let mut i: usize = 0;
    while i < v.len()
        invariant
            i <= v@.len(),
            pair_texts(out@) == pair_texts(v@.subrange(0, i as int)),
        decreases v@.len() - i,
    {
        let (a, b) = (&v[i].0, &v[i].1);
        let ghost prev = out@;
        out.push((a.clone(), b.clone()));
        assert(pair_texts(out@) =~= pair_texts(prev).push((v@[i as int].0@, v@[i as int].1@)));
        assert(pair_texts(v@.subrange(0, i + 1)) =~= pair_texts(v@.subrange(0, i as int)).push((v@[i as int].0@, v@[i as int].1@)));
        i = i + 1;
    }
    assert(v@.subrange(0, v@.len() as int) =~= v@);
    out
}

impl Volume {
    /// A copy of this record.
    pub fn copy(&self) -> (r: Volume)
        ensures
            r@ == self@,
    {
        Volume {
            id: self.id.clone(),
            name: self.name.clone(),
            driver: self.driver.clone(),
            mountpoint: self.mountpoint.clone(),
            labels: clone_pairs(&self.labels),
            options: clone_pairs(&self.options),
            created_at: self.created_at,
        }
    }
}

/// The volumes kept under one directory.
pub struct VolumeManager {
    volumes_dir: String,
    volumes: Vec<Volume>,
}

impl VolumeManager {
    pub closed spec fn dir(&self) -> Seq<char> {
        self.volumes_dir@
    }

    /// The known volumes, in the order they were added.
    pub closed spec fn view(&self) -> Seq<VolumeView> {
        self.volumes@.map_values(|v: Volume| v@)
    }

    /// A manager with no volume, for the directory `volumes_dir`.
    pub fn new(volumes_dir: &str) -> (r: Self)
        ensures
            r.dir() == volumes_dir@,
            r.view().len() == 0,
    {
        VolumeManager { volumes_dir: volumes_dir.to_owned(), volumes: Vec::new() }
    }

    /// The directory that must exist before volumes are made.
    pub fn init_ops(&self) -> (r: Vec<FsOp>)
        ensures
            steps(r@) == seq![FsStep::MakeDirAll(self.dir())],
    {
        let mut ops: Vec<FsOp> = Vec::new();
        ops.push(FsOp::MakeDirAll(self.volumes_dir.clone()));
        assert(steps(ops@) =~= seq![FsStep::MakeDirAll(self.dir())]);
        ops
    }

    /// Adds the volumes read from disk, in order.
    pub fn load_volumes(&mut self, found: Vec<Volume>)
        ensures
            final(self).dir() == old(self).dir(),
            final(self).view() == old(self).view() + found@.map_values(|v: Volume| v@),
    {
        let mut found = found;
        let ghost added = found@;
        self.volumes.append(&mut found);
        assert(self.view() =~= old(self).view() + added.map_values(|v: Volume| v@));
    }

    fn find(&self, name: &str) -> (r: Option<usize>)
        ensures
            r matches Some(i) ==> first_named(self.view(), name@, i as int),
            r is None <==> !has_name(self.view(), name@),
    {
        let mut i: usize = 0;
        while i < self.volumes.len()
            invariant
                i <= self.volumes@.len(),
                forall|j: int| 0 <= j < i ==> self.view()[j].name != name@,
            decreases self.volumes@.len() - i,
        {
            if same_text(self.volumes[i].name.as_str(), name) {
                assert(self.view()[i as int].name == name@);
                return Some(i);
            }
            i = i + 1;
        }
        None
    }

    /// The first volume named `name`.
    pub fn get(&self, name: &str) -> (r: Option<&Volume>)
        ensures
            r is None <==> !has_name(self.view(), name@),
            r matches Some(v) ==> exists|i: int| first_named(self.view(), name@, i) && v@ == self.view()[i],
    {
        match self.find(name) {
            Some(i) => Some(&self.volumes[i]),
            None => None,
        }
    }

    /// Every volume.
    pub fn list(&self) -> (r: &Vec<Volume>)
        ensures
            r@.map_values(|v: Volume| v@) == self.view(),
    {
        &self.volumes
    }

    /// Adds a volume with a fresh random id, made at `created_at`, whose data
    /// lives in `<volumes dir>/<id>/data`; the plan creates that directory. A
    /// name already in use gives `AlreadyExistsError` and changes nothing;
    /// should the random id already be held, the result is `FilesystemError`
    /// and nothing changes. So a new name succeeds whenever no held id has the
    /// form of a random id.
    pub fn create(&mut self, config: VolumeConfig, created_at: i64) -> (r: Result<(Volume, Vec<FsOp>), RuntimeError>)
        ensures
            final(self).dir() == old(self).dir(),
            has_name(old(self).view(), config.name@) ==> (r matches Err(RuntimeError::AlreadyExistsError)),
            !has_name(old(self).view(), config.name@) && (forall|i: int|
                0 <= i < old(self).view().len() ==> !is_hyphenated_uuid(#[trigger] old(self).view()[i].id))
                ==> r is Ok,
            r is Err ==> final(self).view() == old(self).view(),
            r matches Err(e) ==> (e == RuntimeError::AlreadyExistsError || e == RuntimeError::FilesystemError),
            r matches Ok((v, ops)) ==> is_hyphenated_uuid(v.id@) && !has_id(old(self).view(), v.id@)
                && v@ == new_volume(config, created_at, v.id@, old(self).dir()) && final(self).view()
                == old(self).view().push(v@) && steps(ops@) == seq![FsStep::MakeDirAll(v.mountpoint@)],
    {
        if self.find(config.name.as_str()).is_some() {
            return Err(RuntimeError::AlreadyExistsError);
        }
        let id = random_uuid();
        self.create_with_id(id.as_str(), config, created_at)
    }

    /// Adds the volume `id` made from `config` at `created_at`, as `create`
    /// does with a drawn id. A name in use gives `AlreadyExistsError`; an id
    /// already held gives `FilesystemError`; either way nothing changes.
    pub fn create_with_id(&mut self, id: &str, config: VolumeConfig, created_at: i64) -> (r: Result<(Volume, Vec<FsOp>), RuntimeError>)
        ensures
            final(self).dir() == old(self).dir(),
            has_name(old(self).view(), config.name@) ==> (r matches Err(RuntimeError::AlreadyExistsError)),
            !has_name(old(self).view(), config.name@) && has_id(old(self).view(), id@) ==> (r matches Err(
                RuntimeError::FilesystemError,
            )),
            r is Err ==> final(self).view() == old(self).view(),
            !has_name(old(self).view(), config.name@) && !has_id(old(self).view(), id@) ==> (r matches Ok(
                (v, ops),
            ) && v.id@ == id@ && v@ == new_volume(config, created_at, id@, old(self).dir())
                && final(self).view() == old(self).view().push(v@) && steps(ops@) == seq![
                FsStep::MakeDirAll(v.mountpoint@),
            ]),
    {
        if self.find(config.name.as_str()).is_some() {
            return Err(RuntimeError::AlreadyExistsError);
        }
        if self.holds_id(id) {
            return Err(RuntimeError::FilesystemError);
        }
        let home = join_path(self.volumes_dir.as_str(), id);
        let mountpoint = join_path(home.as_str(), "data");
        let mut ops: Vec<FsOp> = Vec::new();
        ops.push(FsOp::MakeDirAll(mountpoint.clone()));
        let volume = Volume {
            id: id.to_owned(),
            name: config.name,
            driver: config.driver,
            mountpoint,
            labels: config.labels,
            options: config.options,
            created_at,
        };
        let out = volume.copy();
        let ghost before = self.volumes@;
        self.volumes.push(volume);
        assert(self.view() =~= before.map_values(|v: Volume| v@).push(out@));
        assert(steps(ops@) =~= seq![FsStep::MakeDirAll(out.mountpoint@)]);
        Ok((out, ops))
    }

    fn holds_id(&self, id: &str) -> (r: bool)
        ensures
            r == has_id(self.view(), id@),
    {
        let mut i: usize = 0;
        while i < self.volumes.len()
            invariant
                i <= self.volumes@.len(),
                forall|j: int| 0 <= j < i ==> self.view()[j].id != id@,
            decreases self.volumes@.len() - i,
        {
            if same_text(self.volumes[i].id.as_str(), id) {
                assert(self.view()[i as int].id == id@);
                return true;
            }
            i = i + 1;
        }
        false
    }

    /// Forgets the first volume named `name`; the plan deletes its
    /// directory. An unknown name gives `NotFoundError`.
    pub fn remove(&mut self, name: &str) -> (r: Result<Vec<FsOp>, RuntimeError>)
        ensures
            final(self).dir() == old(self).dir(),
            !has_name(old(self).view(), name@) ==> (r matches Err(RuntimeError::NotFoundError)
                && final(self).view() == old(self).view()),
            has_name(old(self).view(), name@) ==> (r matches Ok(ops) && exists|i: int|
                first_named(old(self).view(), name@, i) && final(self).view() == old(self).view().remove(i)
                    && steps(ops@) == seq![FsStep::RemoveTree(path_join(old(self).dir(), old(self).view()[i].id))]),
    {
        match self.find(name) {
            None => Err(RuntimeError::NotFoundError),
            Some(i) => {
                let ghost before = self.volumes@;
                let v = self.volumes.remove(i);
                assert(self.view() =~= before.map_values(|v: Volume| v@).remove(i as int));
                let mut ops: Vec<FsOp> = Vec::new();
                ops.push(FsOp::RemoveTree(join_path(self.volumes_dir.as_str(), v.id.as_str())));
                assert(steps(ops@) =~= seq![FsStep::RemoveTree(path_join(self.dir(), v.id@))]);
                Ok(ops)
            },
        }
    }

    /// Plans a bind mount of the first volume named `name` at `target`,
    /// creating `target` first. An unknown name gives `NotFoundError`.
    pub fn mount(&self, name: &str, target: &str) -> (r: Result<Vec<FsOp>, RuntimeError>)
        ensures
            !has_name(self.view(), name@) ==> (r matches Err(RuntimeError::NotFoundError)),
            has_name(self.view(), name@) ==> (r matches Ok(ops) && exists|i: int| first_named(self.view(), name@, i)
                && steps(ops@) == seq![
                    FsStep::MakeDirAll(target@),
                    FsStep::BindMount { source: self.view()[i].mountpoint, target: target@ },
                ]),
    {
        match self.find(name) {
            None => Err(RuntimeError::NotFoundError),
            Some(i) => {
                let mut ops: Vec<FsOp> = Vec::new();
                ops.push(FsOp::MakeDirAll(target.to_owned()));
                ops.push(FsOp::BindMount { source: self.volumes[i].mountpoint.clone(), target: target.to_owned() });
                assert(steps(ops@) =~= seq![
                    FsStep::MakeDirAll(target@),
                    FsStep::BindMount { source: self.view()[i as int].mountpoint, target: target@ },
                ]);
                Ok(ops)
            },
        }
    }

    /// Plans the unmount of `target`.
    pub fn unmount(&self, target: &str) -> (r: Vec<FsOp>)
        ensures
            steps(r@) == seq![FsStep::Unmount { target: target@, best_effort: false }],
    {
        let mut ops: Vec<FsOp> = Vec::new();
        ops.push(FsOp::Unmount { target: target.to_owned(), best_effort: false });
        assert(steps(ops@) =~= seq![FsStep::Unmount { target: target@, best_effort: false }]);
        ops
    }
}

} // verus!

//! Imported images: content-addressed layer directories with a digest.
//!
//! Reading the archive and unpacking it are the caller's part; this module
//! names the image after the SHA-256 of the archive's bytes, decides where
//! its layers go, and keeps the catalog.
use vstd::prelude::*;
use crate::fsplan::{FsOp, FsStep, steps};
use crate::runtime::is_lower_hex;
use crate::text::{concat_str, join_path, path_join, same_text};

verus! {

/// The SHA-256 digest of `bytes`, in lowercase hex.
pub uninterp spec fn sha256_hex(bytes: Seq<u8>) -> Seq<char>;

/// Relies on `sha2::Sha256` and the lowercase-hex formatting of its output:
/// the digest of `bytes`, two hex digits for each of its 32 bytes.
#[verifier::external_body]
fn sha256_lower_hex(bytes: &[u8]) -> (r: String)
    ensures
        r@ == sha256_hex(bytes@),
        r@.len() == 64,
        forall|i: int| 0 <= i < r@.len() ==> is_lower_hex(#[trigger] r@[i]),
{
    format!("{:x}", <sha2::Sha256 as sha2::Digest>::digest(bytes))
}

/// What a container made from an image runs by default.
#[derive(Debug)]
pub struct ImageConfig {
    pub entrypoint: Vec<String>,
    pub cmd: Vec<String>,
    pub env: Vec<String>,
    pub working_dir: String,
    pub user: String,
    pub labels: Vec<(String, String)>,
}

impl Default for ImageConfig {
    fn default() -> (r: Self)
        ensures
            r.entrypoint@.len() == 0,
            r.cmd@.len() == 1 && r.cmd@[0]@ == "/bin/sh"@,
            r.env@.len() == 1 && r.env@[0]@ == "PATH=/usr/bin:/bin"@,
            r.working_dir@ == "/"@,
            r.user@ == "root"@,
            r.labels@.len() == 0,
    {
        let mut cmd: Vec<String> = Vec::new();
        cmd.push("/bin/sh".to_owned());
        let mut env: Vec<String> = Vec::new();
        env.push("PATH=/usr/bin:/bin".to_owned());
        ImageConfig {
            entrypoint: Vec::new(),
            cmd,
            env,
            working_dir: "/".to_owned(),
            user: "root".to_owned(),
            labels: Vec::new(),
        }
    }
}

/// An imported image.
#[derive(Debug)]
pub struct Image {
    pub id: String,
    pub name: String,
    pub tag: String,
    pub digest: String,
    /// Directories whose contents make up the image's root filesystem.
    pub layers: Vec<String>,
    pub size: u64,
    /// Import time, in seconds since the Unix epoch.
    pub created_at: i64,
    pub config: ImageConfig,
}

/// An image as contracts read it.
pub struct ImageView {
    pub id: Seq<char>,
    pub name: Seq<char>,
    pub tag: Seq<char>,
    pub digest: Seq<char>,
    pub layers: Seq<Seq<char>>,
    pub size: u64,
    pub created_at: i64,
}

impl View for Image {
    type V = ImageView;

    open spec fn view(&self) -> ImageView {
        ImageView {
            id: self.id@,
            name: self.name@,
            tag: self.tag@,
            digest: self.digest@,
            layers: self.layers@.map_values(|l: String| l@),
            size: self.size,
            created_at: self.created_at,
        }
    }
}

/// The digest text of an image whose archive hashes to `hex`.
pub open spec fn digest_text(hex: Seq<char>) -> Seq<char> {
    "sha256:"@ + hex
}

/// `<images dir>/<id>/layers`: where an image's archive is unpacked.
pub open spec fn layers_dir_of(dir: Seq<char>, id: Seq<char>) -> Seq<char> {
    path_join(path_join(dir, id), "layers"@)
}

/// The record of an image imported from an archive whose digest is `hex`.
pub open spec fn imported(dir: Seq<char>, hex: Seq<char>, name: Seq<char>, tag: Seq<char>, created_at: i64) -> ImageView {
    ImageView {
        id: hex,
        name: name,
        tag: tag,
        digest: digest_text(hex),
        layers: seq![layers_dir_of(dir, hex)],
        size: 0,
        created_at: created_at,
    }
}

/// The index of the first image with this name and tag.
pub open spec fn first_tagged(vs: Seq<ImageView>, name: Seq<char>, tag: Seq<char>, i: int) -> bool {
    &&& 0 <= i < vs.len()
    &&& vs[i].name == name && vs[i].tag == tag
    &&& forall|j: int| 0 <= j < i ==> !(vs[j].name == name && vs[j].tag == tag)
}

/// The catalog without the images whose id is `id`.
pub open spec fn without_id(vs: Seq<ImageView>, id: Seq<char>) -> Seq<ImageView> {
    vs.filter(|v: ImageView| v.id != id)
}

/// The images kept under one directory.
pub struct ImageManager {
    images_dir: String,
    images: Vec<Image>,
}

impl ImageManager {
    pub closed spec fn dir(&self) -> Seq<char> {
        self.images_dir@
    }

    /// The known images, in the order they were added.
    pub closed spec fn view(&self) -> Seq<ImageView> {
        self.images@.map_values(|v: Image| v@)
    }

    /// A manager with no image, for the directory `images_dir`.
    pub fn new(images_dir: &str) -> (r: Self)
        ensures
            r.dir() == images_dir@,
            r.view().len() == 0,
    {
        ImageManager { images_dir: images_dir.to_owned(), images: Vec::new() }
    }

    /// Adds the images read from the catalog file, in order.
    pub fn load_images(&mut self, found: Vec<Image>)
        ensures
            final(self).dir() == old(self).dir(),
            final(self).view() == old(self).view() + found@.map_values(|v: Image| v@),
    {
        let mut found = found;
        let ghost added = found@;
        self.images.append(&mut found);
        assert(self.view() =~= old(self).view() + added.map_values(|v: Image| v@));
    }

    /// The id of an image: the SHA-256 of its archive, in lowercase hex.
    pub fn generate_image_id(archive: &[u8]) -> (r: String)
        ensures
            r@ == sha256_hex(archive@),
    {
        sha256_lower_hex(archive)
    }

    /// The digest text for an archive whose SHA-256 is `hex`.
    pub fn digest_from_hex(hex: &str) -> (r: String)
        ensures
            r@ == digest_text(hex@),
    {
        concat_str("sha256:", hex)
    }

    /// The digest of an archive: `sha256:` and its SHA-256 in lowercase hex.
    pub fn calculate_digest(archive: &[u8]) -> (r: String)
        ensures
            r@ == digest_text(sha256_hex(archive@)),
    {
        let hex = sha256_lower_hex(archive);
        Self::digest_from_hex(hex.as_str())
    }

    /// Registers the image named `name:tag` whose archive holds `archive`,
    /// imported at `created_at`. The plan creates its layers directory, into
    /// which the caller unpacks the archive. An image with the same id is
    /// replaced.
    pub fn import_from_tar(&mut self, archive: &[u8], name: &str, tag: &str, created_at: i64) -> (r: (Image, Vec<FsOp>))
        ensures
            final(self).dir() == old(self).dir(),
            r.0@ == imported(old(self).dir(), sha256_hex(archive@), name@, tag@, created_at),
            final(self).view() == without_id(old(self).view(), sha256_hex(archive@)).push(r.0@),
            steps(r.1@) == seq![FsStep::MakeDirAll(r.0.layers@[0]@)],
    {
        let id = Self::generate_image_id(archive);
        let digest = Self::digest_from_hex(id.as_str());
        let image_dir = join_path(self.images_dir.as_str(), id.as_str());
        let layers_dir = join_path(image_dir.as_str(), "layers");
        let mut ops: Vec<FsOp> = Vec::new();
        ops.push(FsOp::MakeDirAll(layers_dir.clone()));
        self.drop_id(id.as_str());
        let mut layers: Vec<String> = Vec::new();
        layers.push(layers_dir.clone());
        let mut layers2: Vec<String> = Vec::new();
        layers2.push(layers_dir);
        let stored = Image {
            id: id.clone(),
            name: name.to_owned(),
            tag: tag.to_owned(),
            digest: digest.clone(),
            layers,
            size: 0,
            created_at,
            config: ImageConfig::default(),
        };
        let out = Image {
            id,
            name: name.to_owned(),
            tag: tag.to_owned(),
            digest,
            layers: layers2,
            size: 0,
            created_at,
            config: ImageConfig::default(),
        };
        let ghost before = self.images@;
        self.images.push(stored);
        assert(out@.layers =~= seq![layers_dir_of(old(self).dir(), sha256_hex(archive@))]);
        assert(self.view() =~= before.map_values(|v: Image| v@).push(out@));
        assert(steps(ops@) =~= seq![FsStep::MakeDirAll(out.layers@[0]@)]);
        (out, ops)
    }

    /// Removes every image whose id is `id`; says whether one was there.
    fn drop_id(&mut self, id: &str) -> (r: bool)
        ensures
            final(self).dir() == old(self).dir(),
            final(self).view() == without_id(old(self).view(), id@),
            r == exists|i: int| 0 <= i < old(self).view().len() && old(self).view()[i].id == id@,
    {
        let ghost all = self.view();
        let mut rest: Vec<Image> = Vec::new();
        std::mem::swap(&mut self.images, &mut rest);
        let n = rest.len();
        let mut found = false;
        let mut i: usize = 0;
        while i < n
            invariant
                n == all.len(),
                i <= n,
                rest@.len() == n - i,
                rest@.map_values(|v: Image| v@) == all.subrange(i as int, n as int),
                self.view() == without_id(all.subrange(0, i as int), id@),
                found == exists|j: int| 0 <= j < i && all[j].id == id@,
                self.dir() == old(self).dir(),
            decreases n - i,
        {
            let ghost before_rest = rest@;
            assert(before_rest.map_values(|v: Image| v@)[0] == before_rest[0]@);
            let img = rest.remove(0);
            assert(img@ == all[i as int]);
            assert(rest@ =~= before_rest.subrange(1, before_rest.len() as int));
            assert(before_rest.subrange(1, before_rest.len() as int).map_values(|v: Image| v@) =~= before_rest.map_values(
                |v: Image| v@,
            ).subrange(1, before_rest.len() as int));
            assert(rest@.map_values(|v: Image| v@) =~= all.subrange(i + 1, n as int));
            assert(all.subrange(0, i + 1).drop_last() =~= all.subrange(0, i as int));
            reveal_with_fuel(Seq::filter, 1);
            if same_text(img.id.as_str(), id) {
                found = true;
            } else {
                let ghost prev = self.images@;
                self.images.push(img);
                assert(self.view() =~= prev.map_values(|v: Image| v@).push(all[i as int]));
            }
            i = i + 1;
        }
        assert(all.subrange(0, n as int) =~= all);
        found
    }

    /// Removes the image `image_id`; the plan deletes its directory. Nothing
    /// happens for an unknown id.
    pub fn remove(&mut self, image_id: &str) -> (r: Vec<FsOp>)
        ensures
            final(self).dir() == old(self).dir(),
            final(self).view() == without_id(old(self).view(), image_id@),
            (exists|i: int| 0 <= i < old(self).view().len() && old(self).view()[i].id == image_id@) ==> steps(r@)
                == seq![FsStep::RemoveTree(path_join(old(self).dir(), image_id@))],
            !(exists|i: int| 0 <= i < old(self).view().len() && old(self).view()[i].id == image_id@) ==> r@.len()
                == 0,
    {
        let mut ops: Vec<FsOp> = Vec::new();
        if self.drop_id(image_id) {
            ops.push(FsOp::RemoveTree(join_path(self.images_dir.as_str(), image_id)));
            assert(steps(ops@) =~= seq![FsStep::RemoveTree(path_join(old(self).dir(), image_id@))]);
        }
        ops
    }

    /// The first image named `name` with tag `tag`.
    pub fn get(&self, name: &str, tag: &str) -> (r: Option<&Image>)
        ensures
            r is None <==> forall|i: int|
                0 <= i < self.view().len() ==> !(self.view()[i].name == name@ && self.view()[i].tag == tag@),
            r matches Some(v) ==> exists|i: int| first_tagged(self.view(), name@, tag@, i) && v@ == self.view()[i],
    {
        let mut i: usize = 0;
        while i < self.images.len()
            invariant
                i <= self.images@.len(),
                forall|j: int| 0 <= j < i ==> !(self.view()[j].name == name@ && self.view()[j].tag == tag@),
            decreases self.images@.len() - i,
        {
            if same_text(self.images[i].name.as_str(), name) && same_text(self.images[i].tag.as_str(), tag) {
                assert(first_tagged(self.view(), name@, tag@, i as int));
                return Some(&self.images[i]);
            }
            i = i + 1;
        }
        None
    }

    /// Every image.
    pub fn list(&self) -> (r: &Vec<Image>)
        ensures
            r@.map_values(|v: Image| v@) == self.view(),
    {
        &self.images
    }

    /// Plans the copy of each layer of `image` that exists (as
    /// `layer_exists` says, one flag per layer) into `target`, in order.
    pub fn prepare_rootfs(&self, image: &Image, target: &str, layer_exists: &Vec<bool>) -> (r: Vec<FsOp>)
        requires
            layer_exists@.len() == image.layers@.len(),
        ensures
            steps(r@) == layer_copies(image@.layers, layer_exists@, target@),
    {
        let mut ops: Vec<FsOp> = Vec::new();
        let mut i: usize = 0;
        while i < image.layers.len()
            invariant
                i <= image.layers@.len(),
                layer_exists@.len() == image.layers@.len(),
                steps(ops@) == layer_copies(
                    image@.layers.subrange(0, i as int),
                    layer_exists@.subrange(0, i as int),
                    target@,
                ),
            decreases image.layers@.len() - i,
        {
            let ghost ls = image@.layers.subrange(0, i + 1);
            let ghost es = layer_exists@.subrange(0, i + 1);
            assert(ls.drop_last() =~= image@.layers.subrange(0, i as int));
            assert(es.drop_last() =~= layer_exists@.subrange(0, i as int));
            if layer_exists[i] {
                let ghost prev = ops@;
                ops.push(FsOp::CopyTree { from: image.layers[i].clone(), to: target.to_owned() });
                assert(steps(ops@) =~= steps(prev).push(FsStep::CopyTree { from: ls.last(), to: target@ }));
            }
            i = i + 1;
        }
        assert(image@.layers.subrange(0, image.layers@.len() as int) =~= image@.layers);
        assert(layer_exists@.subrange(0, image.layers@.len() as int) =~= layer_exists@);
        ops
    }
}

/// Copying each present layer into `target`, in order.
pub open spec fn layer_copies(layers: Seq<Seq<char>>, present: Seq<bool>, target: Seq<char>) -> Seq<FsStep>
    decreases layers.len(),
{
    if layers.len() == 0 || present.len() == 0 {
        seq![]
    } else {
        let rest = layer_copies(layers.drop_last(), present.drop_last(), target);
        if present.last() {
            rest.push(FsStep::CopyTree { from: layers.last(), to: target })
        } else {
            rest
        }
    }
}

} // verus!

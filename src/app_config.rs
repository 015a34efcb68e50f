use vstd::prelude::*;

use crate::path::{join, join_spec, opt_view};
use crate::project::{CONFIG_FILE_NAME_LOCAL, CONFIG_FILE_NAME_PROJECT};

verus! {

/// The settings of a project. A field that is `None` is left to a layer of
/// lower precedence.
#[derive(Debug, Clone)]
pub struct AppConfig {
    pub database_container: Option<String>,
    pub dumps_dir: Option<String>,
}

/// What an `AppConfig` holds, field by field.
pub ghost struct ConfigView {
    pub database_container: Option<Seq<char>>,
    pub dumps_dir: Option<Seq<char>>,
}

/// The number of settings a configuration has.
pub open spec fn field_count() -> int {
    2
}

/// The setting with index `k` (`0`: the database container, `1`: the
/// directory for dumps).
pub open spec fn field(c: ConfigView, k: int) -> Option<Seq<char>> {
    if k == 0 {
        c.database_container
    } else {
        c.dumps_dir
    }
}

impl View for AppConfig {
    type V = ConfigView;

    open spec fn view(&self) -> ConfigView {
        ConfigView {
            database_container: opt_view(self.database_container),
            dumps_dir: opt_view(self.dumps_dir),
        }
    }
}

/// The compiled-in settings.
pub open spec fn default_spec() -> ConfigView {
    ConfigView { database_container: Some("db"@), dumps_dir: Some("dumps"@) }
}

/// A configuration in which every setting has a value.
pub open spec fn is_total(c: ConfigView) -> bool {
    forall|k: int| 0 <= k < field_count() ==> (#[trigger] field(c, k)) is Some
}

/// One setting of two layers merged: the higher layer's value where it has
/// one, else the lower layer's.
pub open spec fn merge_field(lower: Option<Seq<char>>, higher: Option<Seq<char>>) -> Option<
    Seq<char>,
> {
    match higher {
        Some(v) => Some(v),
        None => lower,
    }
}

/// Two layers merged setting by setting.
pub open spec fn merge_spec(lower: ConfigView, higher: ConfigView) -> ConfigView {
    ConfigView {
        database_container: merge_field(lower.database_container, higher.database_container),
        dumps_dir: merge_field(lower.dumps_dir, higher.dumps_dir),
    }
}

/// The empty layer: no setting has a value.
pub open spec fn empty_spec() -> ConfigView {
    ConfigView { database_container: None, dumps_dir: None }
}

/// One configuration file as it was read.
#[derive(Debug, Clone)]
pub enum ConfigLayer {
    /// There is no such file: it counts as an empty layer.
    Absent,
    /// The file exists but could not be parsed.
    Malformed,
    Parsed(AppConfig),
}

pub open spec fn layer_view(l: ConfigLayer) -> ConfigView {
    match l {
        ConfigLayer::Parsed(c) => c@,
        _ => empty_spec(),
    }
}

/// A configuration file that exists could not be parsed.
#[derive(Debug, Clone)]
pub enum ConfigError {
    Malformed { path: String },
}

/// The effective configuration for a project: the defaults, then the project
/// layer, then the local layer, each over the one before.
pub open spec fn effective_spec(project: ConfigView, local: ConfigView) -> ConfigView {
    merge_spec(merge_spec(default_spec(), project), local)
}

impl Default for AppConfig {
    fn default() -> (r: Self)
        ensures
            r@ == default_spec(),
    {
        AppConfig {
            database_container: Some(String::from_str("db")),
            dumps_dir: Some(String::from_str("dumps")),
        }
    }
}

fn merge_option(lower: Option<String>, higher: Option<String>) -> (r: Option<String>)
    ensures
        opt_view(r) == merge_field(opt_view(lower), opt_view(higher)),
{
    match higher {
        Some(v) => Some(v),
        None => lower,
    }
}

impl AppConfig {
    /// The empty layer.
    pub fn empty() -> (r: Self)
        ensures
            r@ == empty_spec(),
    {
        AppConfig { database_container: None, dumps_dir: None }
    }

    /// `over` merged onto `self`: each setting comes from `over` where it has
    /// one, else from `self`.
    pub fn merge(self, over: AppConfig) -> (r: AppConfig)
        ensures
            r@ == merge_spec(self@, over@),
    {
        AppConfig {
            database_container: merge_option(self.database_container, over.database_container),
            dumps_dir: merge_option(self.dumps_dir, over.dumps_dir),
        }
    }

    /// The effective configuration of the project at `project_root`, from its
    /// project file and its local file as they were read. A missing file is an
    /// empty layer; a file that could not be parsed is an error naming its
    /// path, the local file's first.
    pub fn merge_from_project_root(project_root: &str, project: ConfigLayer, local: ConfigLayer) -> (r:
        Result<AppConfig, ConfigError>)
        ensures
            r is Err <==> (local is Malformed || project is Malformed),
            local is Malformed ==> (r matches Err(ConfigError::Malformed { path }) && path@
                == join_spec(project_root@, CONFIG_FILE_NAME_LOCAL@)),
            !(local is Malformed) && project is Malformed ==> (r matches Err(
                ConfigError::Malformed { path },
            ) && path@ == join_spec(project_root@, CONFIG_FILE_NAME_PROJECT@)),
            r is Ok ==> r->Ok_0@ == effective_spec(layer_view(project), layer_view(local)),
            r is Ok ==> is_total(r->Ok_0@),
    {
        let local_layer = match local {
            ConfigLayer::Absent => AppConfig::empty(),
            ConfigLayer::Malformed => {
                return Err(
                    ConfigError::Malformed { path: join(project_root, CONFIG_FILE_NAME_LOCAL) },
                );
            },
            ConfigLayer::Parsed(c) => c,
        };
        let project_layer = match project {
            ConfigLayer::Absent => AppConfig::empty(),
            ConfigLayer::Malformed => {
                return Err(
                    ConfigError::Malformed { path: join(project_root, CONFIG_FILE_NAME_PROJECT) },
                );
            },
            ConfigLayer::Parsed(c) => c,
        };
        let r = AppConfig::default().merge(project_layer).merge(local_layer);
        assert(field(r@, 0) is Some && field(r@, 1) is Some);
        Ok(r)
    }
}

/// Each setting of the merged configuration is that of the layer of highest
/// precedence (defaults, then project, then local) that sets it; a setting
/// that no layer sets stays unset, so defaults that set everything give a
/// configuration that sets everything.
pub proof fn lemma_layered_precedence(defaults: ConfigView, project: ConfigView, local: ConfigView)
    ensures
        ({
            let layers = seq![defaults, project, local];
            let merged = merge_spec(merge_spec(defaults, project), local);
            &&& forall|k: int, i: int|
                0 <= k < field_count() && 0 <= i < 3 && (#[trigger] field(layers[i], k)) is Some
                    && (forall|j: int| i < j < 3 ==> field(layers[j], k) is None) ==> field(merged, k)
                    == field(layers[i], k)
            &&& forall|k: int|
                0 <= k < field_count() && (forall|i: int| 0 <= i < 3 ==> field(layers[i], k) is None)
                    ==> (#[trigger] field(merged, k)) is None
            &&& is_total(defaults) ==> is_total(merged)
        }),
{
    let layers = seq![defaults, project, local];
    let merged = merge_spec(merge_spec(defaults, project), local);
    assert(layers[0] == defaults && layers[1] == project && layers[2] == local);
    assert forall|k: int, i: int|
        0 <= k < field_count() && 0 <= i < 3 && (#[trigger] field(layers[i], k)) is Some && (forall|
            j: int,
        | i < j < 3 ==> field(layers[j], k) is None) implies field(merged, k) == field(layers[i], k) by {
        assert(i < 1 ==> field(layers[1], k) is None);
        assert(i < 2 ==> field(layers[2], k) is None);
    }
    assert forall|k: int|
        0 <= k < field_count() && (forall|i: int| 0 <= i < 3 ==> field(layers[i], k) is None) implies (
        #[trigger] field(merged, k)) is None by {
        assert(field(layers[0], k) is None && field(layers[1], k) is None && field(layers[2], k) is None);
    }
    if is_total(defaults) {
        assert forall|k: int| 0 <= k < field_count() implies (#[trigger] field(merged, k)) is Some by {
            assert(field(defaults, k) is Some);
        }
    }
}

} // verus!

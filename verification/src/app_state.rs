//! The state that the daemon's decisions read: the configuration and where
//! images are looked for.

use vstd::prelude::*;
use vstd::string::StringExecFns;
use crate::config::{BackgroundConfig, Config, FillMode};
use crate::constants::{config_folder, config_folder_under};
use crate::name_map::NameMap;
use crate::paths::{is_absolute, is_absolute_path, join, join_paths};

verus! {

/// The configuration in force, and the theme pool that image paths are
/// resolved against.
pub struct AppState {
    pub config_path: String,
    pub images_pool: Option<String>,
    pub is_pool: bool,
    /// Whether the pool held an `images` folder when it was last looked at.
    pub images_dir_found: bool,
    pub config: Config,
}

/// The key under which `update_background` stores the background.
pub open spec fn default_key() -> Seq<char> {
    "default"@
}

/// The first entry of a background table, if it has one.
pub open spec fn first_background(config: Config) -> Option<BackgroundConfig> {
    match config.background {
        Some(table) => if table.keys().len() > 0 {
            Some(table@[table.keys()[0]])
        } else {
            None
        },
        None => None,
    }
}

impl Default for AppState {
    /// The state before any configuration is read: the default
    /// configuration, the daemon's configuration folder, and no pool.
    fn default() -> (state: Self)
        ensures
            exists|base: Option<Seq<char>>| state.config_path@ == config_folder_under(base),
            state.images_pool is None,
            !state.is_pool,
            !state.images_dir_found,
            state.config.background is None,
            state.config.time_config is None,
            state.config.weather is None,
    {
        AppState {
            config_path: config_folder(),
            images_pool: None,
            is_pool: false,
            images_dir_found: false,
            config: Config::default(),
        }
    }
}

impl AppState {
    /// The folder that relative image paths are taken from: the pool's
    /// `images` folder where it has one, else the pool itself; none where no
    /// pool is set.
    pub open spec fn image_root(&self) -> Option<Seq<char>> {
        match self.images_pool {
            Some(pool) => Some(
                if self.images_dir_found {
                    join_paths(pool@, "images"@)
                } else {
                    pool@
                },
            ),
            None => None,
        }
    }

    /// `path` as the renderer is given it: unchanged where it is absolute or
    /// no pool is set, else taken from the image root.
    pub open spec fn resolved_path(&self, path: Seq<char>) -> Seq<char> {
        if is_absolute_path(path) {
            path
        } else {
            match self.image_root() {
                Some(root) => join_paths(root, path),
                None => path,
            }
        }
    }

    pub fn new(
        config: Config,
        config_path: String,
        images_pool: Option<String>,
        is_pool: bool,
        images_dir_found: bool,
    ) -> (state: Self)
        ensures
            state.config == config,
            state.config_path == config_path,
            state.images_pool == images_pool,
            state.is_pool == is_pool,
            state.images_dir_found == images_dir_found,
    {
        AppState { config_path, images_pool, is_pool, images_dir_found, config }
    }

    /// The image of the first background entry.
    pub fn get_current_background(&self) -> (image: Option<&str>)
        ensures
            match image {
                Some(path) => first_background(self.config) matches Some(bg) && bg.image matches Some(
                    p,
                ) && p@ == path@,
                None => first_background(self.config) matches Some(bg) ==> bg.image is None,
            },
    {
        match &self.config.background {
            Some(table) => {
                if table.len() > 0 {
                    match &table.value_at(0).image {
                        Some(path) => Some(path.as_str()),
                        None => None,
                    }
                } else {
                    None
                }
            },
            None => None,
        }
    }

    /// The fill mode of the first background entry, `Fill` where there is
    /// none.
    pub fn get_fill_mode(&self) -> (mode: FillMode)
        ensures
            mode == match first_background(self.config) {
                Some(bg) => bg.fill_mode,
                None => FillMode::Fill,
            },
    {
        match &self.config.background {
            Some(table) => {
                if table.len() > 0 {
                    table.value_at(0).fill_mode
                } else {
                    FillMode::Fill
                }
            },
            None => FillMode::Fill,
        }
    }

    /// Replaces the background table by one entry, under the key `default`.
    pub fn update_background(&mut self, image_path: String, fill_mode: FillMode)
        ensures
            final(self).config.background matches Some(table) && table.keys() == seq![
                default_key(),
            ] && table@[default_key()].image == Some(image_path) && table@[default_key()].fill_mode
                == fill_mode,
            final(self).config.pool == old(self).config.pool,
            final(self).config.version == old(self).config.version,
            final(self).config.name == old(self).config.name,
            final(self).config.description == old(self).config.description,
            final(self).config.theme == old(self).config.theme,
            final(self).config.time_config == old(self).config.time_config,
            final(self).config.weather == old(self).config.weather,
            final(self).config_path == old(self).config_path,
            final(self).images_pool == old(self).images_pool,
            final(self).is_pool == old(self).is_pool,
            final(self).images_dir_found == old(self).images_dir_found,
    {
        let mut table: NameMap<BackgroundConfig> = NameMap::new();
        table.insert(
            String::from_str("default"),
            BackgroundConfig { image: Some(image_path), fill_mode },
        );
        proof {
            table.lemma_keys_are_domain(default_key());
            assert(table.keys() =~= seq![default_key()]);
        }
        self.config.background = Some(table);
    }

    /// Puts a configuration that was read anew in force, with its pool.
    pub fn reload_config(&mut self, config: Config, images_dir_found: bool)
        ensures
            final(self).config == config,
            final(self).images_pool == config.pool,
            final(self).is_pool == config.pool is Some,
            final(self).images_dir_found == images_dir_found,
            final(self).config_path == old(self).config_path,
    {
        self.images_pool = config.pool.clone();
        self.is_pool = config.pool.is_some();
        self.images_dir_found = images_dir_found;
        self.config = config;
    }

    /// Resolves an image path against the theme pool if it is relative.
    pub fn resolve_image_path(&self, path: &str) -> (resolved: String)
        ensures
            resolved@ == self.resolved_path(path@),
    {
        if is_absolute(path) {
            return String::from_str(path);
        }
        match &self.images_pool {
            Some(pool) => {
                if self.images_dir_found {
                    let root = join(pool.as_str(), "images");
                    join(root.as_str(), path)
                } else {
                    join(pool.as_str(), path)
                }
            },
            None => String::from_str(path),
        }
    }
}

} // verus!

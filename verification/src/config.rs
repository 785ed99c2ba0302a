//! Program configuration: where the assets, shaders and the log file live.
//!
//! The embedding program reads and deserializes the configuration file;
//! the records here hold the result as plain strings, and the path
//! arithmetic on them — joining directories, picking the platform's shader
//! version — is verified.

use vstd::prelude::*;
use vstd::string::StrSliceExecFns;
use vstd::string::StringExecFns;

verus! {

/// Joining paths: an absolute right side replaces the left side; otherwise
/// the right side is appended, with a separator unless one is already
/// there.
pub open spec fn spec_join_path(a: Seq<char>, b: Seq<char>) -> Seq<char> {
    if b.len() > 0 && b[0] == '/' {
        b
    } else if a.len() == 0 {
        b
    } else if a[a.len() - 1] == '/' {
        a + b
    } else {
        a.push('/') + b
    }
}

/// Join two path fragments as `spec_join_path` describes.
pub fn join_path(a: &String, b: &String) -> (r: String)
    ensures
        r@ == spec_join_path(a@, b@),
{
    let b_str = b.as_str();
    let b_len = b_str.unicode_len();
    if b_len > 0 && b_str.get_char(0) == '/' {
        return b.clone();
    }
    let a_str = a.as_str();
    let a_len = a_str.unicode_len();
    if a_len == 0 {
        return b.clone();
    }
    let mut r = a.clone();
    if a_str.get_char(a_len - 1) == '/' {
        r.append(b.as_str());
    } else {
        r.append("/");
        r.append(b.as_str());
        proof {
            reveal_strlit("/");
            assert(a@ + "/"@ =~= a@.push('/'));
        }
    }
    r
}

/// Where the caller's installation lives: its configuration, binaries and
/// data directories.
#[derive(Debug)]
pub struct PathConfig {
    pub config_home: String,
    pub bin_dir: String,
    pub data_dir: String,
}

impl PathConfig {
    pub fn new(config_home: String, bin_dir: String, data_dir: String) -> (r: PathConfig)
        ensures
            r.config_home == config_home,
            r.bin_dir == bin_dir,
            r.data_dir == data_dir,
    {
        PathConfig { config_home, bin_dir, data_dir }
    }
}

/// Which platform's shader dialect directory to pick.
#[derive(Clone, Copy, PartialEq, Eq, Structural, Debug)]
pub enum TargetOs {
    MacOs,
    Windows,
    Linux,
}

/// The per-platform shader version directories named by the configuration
/// file.
#[derive(Debug)]
pub struct PlatformConfig {
    pub macos: String,
    pub windows: String,
    pub linux: String,
}

impl PlatformConfig {
    pub fn new(macos: String, windows: String, linux: String) -> (r: PlatformConfig)
        ensures
            r.macos == macos,
            r.windows == windows,
            r.linux == linux,
    {
        PlatformConfig { macos, windows, linux }
    }

    /// The shader version directory for one platform.
    pub open spec fn spec_version_for(&self, os: TargetOs) -> String {
        match os {
            TargetOs::MacOs => self.macos,
            TargetOs::Windows => self.windows,
            TargetOs::Linux => self.linux,
        }
    }

    pub fn version_for(&self, os: TargetOs) -> (r: String)
        ensures
            r@ == self.spec_version_for(os)@,
    {
        match os {
            TargetOs::MacOs => self.macos.clone(),
            TargetOs::Windows => self.windows.clone(),
            TargetOs::Linux => self.linux.clone(),
        }
    }
}

/// The configuration file's contents, as deserialized by the embedding
/// program.
#[derive(Debug)]
pub struct FileConfig {
    pub log_file: String,
    pub shader_path: String,
    pub shader_version: String,
    pub asset_path: String,
    pub platform: PlatformConfig,
}

impl FileConfig {
    pub fn new(
        log_file: String,
        shader_path: String,
        shader_version: String,
        asset_path: String,
        platform: PlatformConfig,
    ) -> (r: FileConfig)
        ensures
            r.log_file == log_file,
            r.shader_path == shader_path,
            r.shader_version == shader_version,
            r.asset_path == asset_path,
            r.platform == platform,
    {
        FileConfig { log_file, shader_path, shader_version, asset_path, platform }
    }

    /// Overwrite the generic shader version with the running platform's
    /// own, as the platform section of the file names it.
    pub fn apply_platform(&mut self, os: TargetOs)
        ensures
            final(self).shader_version@ == old(self).platform.spec_version_for(os)@,
            final(self).log_file == old(self).log_file,
            final(self).shader_path == old(self).shader_path,
            final(self).asset_path == old(self).asset_path,
            final(self).platform == old(self).platform,
    {
        self.shader_version = self.platform.version_for(os);
    }
}

/// The resolved configuration the program runs with: every path already
/// joined onto the data directory.
#[derive(Debug)]
pub struct ProgramConfig {
    pub config_home: String,
    pub bin_dir: String,
    pub data_dir: String,
    pub log_file: String,
    pub shader_path: String,
    pub shader_version: String,
    pub asset_path: String,
}

impl ProgramConfig {
    pub fn new(path_config: PathConfig, file_config: FileConfig) -> (r: ProgramConfig)
        ensures
            r.config_home == path_config.config_home,
            r.bin_dir == path_config.bin_dir,
            r.data_dir == path_config.data_dir,
            r.log_file@ == spec_join_path(path_config.data_dir@, file_config.log_file@),
            r.shader_path@ == spec_join_path(path_config.data_dir@, file_config.shader_path@),
            r.shader_version == file_config.shader_version,
            r.asset_path@ == spec_join_path(path_config.data_dir@, file_config.asset_path@),
    {
        let log_file = join_path(&path_config.data_dir, &file_config.log_file);
        let shader_path = join_path(&path_config.data_dir, &file_config.shader_path);
        let asset_path = join_path(&path_config.data_dir, &file_config.asset_path);
        ProgramConfig {
            config_home: path_config.config_home,
            bin_dir: path_config.bin_dir,
            data_dir: path_config.data_dir,
            log_file,
            shader_path,
            shader_version: file_config.shader_version,
            asset_path,
        }
    }

    /// Where one shader file lives: the shader directory, the platform's
    /// version directory, then the file name.
    pub fn shader_file(&self, name: &String) -> (r: String)
        ensures
            r@ == spec_join_path(
                spec_join_path(self.shader_path@, self.shader_version@),
                name@,
            ),
    {
        let dir = join_path(&self.shader_path, &self.shader_version);
        join_path(&dir, name)
    }

    /// Where one asset file lives.
    pub fn asset_file(&self, name: &String) -> (r: String)
        ensures
            r@ == spec_join_path(self.asset_path@, name@),
    {
        join_path(&self.asset_path, name)
    }
}

} // verus!

//! Read-only projections over an assembled document: raw lookup, list lookup,
//! and the catalogue of named os-release fields.

use vstd::prelude::*;

use crate::document::{entry_views, spec_get};
use crate::imap::{map_get, map_pairs};
use crate::parse::{spec_split_ws, split_whitespace_list, str_views};
use crate::{OsRelease, OsReleaseEntry};

verus! {

/// Methods to get any field in the os-release file.
impl OsRelease {
    /// Returns the entries of the document, in insertion order.
    pub fn entries(&self) -> (r: Vec<OsReleaseEntry>)
        ensures
            entry_views(r@) == self@,
    {
        let pairs = map_pairs(&self.fields);
        let mut out: Vec<OsReleaseEntry> = Vec::new();
        let mut i: usize = 0;
        while i < pairs.len()
            invariant
                i <= pairs.len(),
                pairs@.len() == self@.len(),
                forall|j: int| 0 <= j < pairs@.len() ==> ((#[trigger] pairs@[j]).0@, pairs@[j].1@)
                    == self@[j],
                out@.len() == i,
                forall|j: int| 0 <= j < i ==> (#[trigger] out@[j])@ == self@[j],
            decreases pairs.len() - i,
        {
            let p = &pairs[i];
            out.push(OsReleaseEntry::new(p.0.clone(), p.1.clone()));
            i += 1;
        }
        proof {
            assert(entry_views(out@) =~= self@);
        }
        out
    }

    /// Returns the value of a field in the os-release file.
    pub fn get_value(&self, key: &str) -> (r: Option<&str>)
        ensures
            match r {
                Some(v) => spec_get(self@, key@) == Some(v@),
                None => spec_get(self@, key@) is None,
            },
    {
        match map_get(&self.fields, key) {
            Some(v) => Some(v.as_str()),
            None => None,
        }
    }

    /// Returns the value of a field in the os-release as a list of
    /// white-space-separated tokens.
    pub fn get_value_as_list(&self, key: &str) -> (r: Option<Vec<String>>)
        ensures
            match r {
                Some(l) => spec_get(self@, key@) matches Some(v) && str_views(l@)
                    == spec_split_ws(v),
                None => spec_get(self@, key@) is None,
            },
    {
        match self.get_value(key) {
            Some(v) => Some(split_whitespace_list(v)),
            None => None,
        }
    }
}

/// Methods to get general information identifying the operating system.
impl OsRelease {
    /// Returns the string identifying the operating system, without a version
    /// component, suitable for presentation to the user.
    ///
    /// If not set in the os-release file, defaults to `linux`.
    pub fn name(&self) -> (r: &str)
        ensures
            match spec_get(self@, "NAME"@) {
                Some(v) => r@ == v,
                None => r@ == "linux"@,
            },
    {
        match self.get_value("NAME") {
            Some(v) => v,
            None => "linux",
        }
    }

    /// Returns the lower-case string identifying the operating system,
    /// excluding any version information.
    ///
    /// If not set in the os-release file, defaults to `linux`.
    pub fn id(&self) -> (r: &str)
        ensures
            match spec_get(self@, "ID"@) {
                Some(v) => r@ == v,
                None => r@ == "linux"@,
            },
    {
        match self.get_value("ID") {
            Some(v) => v,
            None => "linux",
        }
    }

    /// Returns the list of identifiers of operating systems that are closely
    /// related to the local operating system.
    pub fn id_like(&self) -> (r: Option<Vec<String>>)
        ensures
            match r {
                Some(l) => spec_get(self@, "ID_LIKE"@) matches Some(v) && str_views(l@)
                    == spec_split_ws(v),
                None => spec_get(self@, "ID_LIKE"@) is None,
            },
    {
        self.get_value_as_list("ID_LIKE")
    }

    /// Returns the pretty operating system name in a format suitable for
    /// presentation to the user.
    ///
    /// If not set in the os-release file, defaults to `Linux`.
    pub fn pretty_name(&self) -> (r: &str)
        ensures
            match spec_get(self@, "PRETTY_NAME"@) {
                Some(v) => r@ == v,
                None => r@ == "Linux"@,
            },
    {
        match self.get_value("PRETTY_NAME") {
            Some(v) => v,
            None => "Linux",
        }
    }

    /// Returns the CPE name for the operating system in URI binding syntax.
    pub fn cpe_name(&self) -> (r: Option<&str>)
        ensures
            match r {
                Some(v) => spec_get(self@, "CPE_NAME"@) == Some(v@),
                None => spec_get(self@, "CPE_NAME"@) is None,
            },
    {
        self.get_value("CPE_NAME")
    }

    /// Returns the string identifying a specific variant or edition of the
    /// operating system, suitable for presentation to the user.
    pub fn variant(&self) -> (r: Option<&str>)
        ensures
            match r {
                Some(v) => spec_get(self@, "VARIANT"@) == Some(v@),
                None => spec_get(self@, "VARIANT"@) is None,
            },
    {
        self.get_value("VARIANT")
    }

    /// Returns the lower-case string identifying a specific variant or
    /// edition of the operating system.
    pub fn variant_id(&self) -> (r: Option<&str>)
        ensures
            match r {
                Some(v) => spec_get(self@, "VARIANT_ID"@) == Some(v@),
                None => spec_get(self@, "VARIANT_ID"@) is None,
            },
    {
        self.get_value("VARIANT_ID")
    }
}

/// Methods to get information about the version of the operating system.
impl OsRelease {
    /// Returns the string identifying the operating system version, excluding
    /// any OS name information, suitable for presentation to the user.
    pub fn version(&self) -> (r: Option<&str>)
        ensures
            match r {
                Some(v) => spec_get(self@, "VERSION"@) == Some(v@),
                None => spec_get(self@, "VERSION"@) is None,
            },
    {
        self.get_value("VERSION")
    }

    /// Returns the lower-case string identifying the operating system
    /// version, excluding any OS name information or release code name.
    pub fn version_id(&self) -> (r: Option<&str>)
        ensures
            match r {
                Some(v) => spec_get(self@, "VERSION_ID"@) == Some(v@),
                None => spec_get(self@, "VERSION_ID"@) is None,
            },
    {
        self.get_value("VERSION_ID")
    }

    /// Returns the string identifying the operating system release code name.
    pub fn version_codename(&self) -> (r: Option<&str>)
        ensures
            match r {
                Some(v) => spec_get(self@, "VERSION_CODENAME"@) == Some(v@),
                None => spec_get(self@, "VERSION_CODENAME"@) is None,
            },
    {
        self.get_value("VERSION_CODENAME")
    }

    /// Returns the string uniquely identifying the system image originally
    /// used as the installation base.
    pub fn build_id(&self) -> (r: Option<&str>)
        ensures
            match r {
                Some(v) => spec_get(self@, "BUILD_ID"@) == Some(v@),
                None => spec_get(self@, "BUILD_ID"@) is None,
            },
    {
        self.get_value("BUILD_ID")
    }

    /// Returns the lower-case string identifying a specific image of the
    /// operating system.
    pub fn image_id(&self) -> (r: Option<&str>)
        ensures
            match r {
                Some(v) => spec_get(self@, "IMAGE_ID"@) == Some(v@),
                None => spec_get(self@, "IMAGE_ID"@) is None,
            },
    {
        self.get_value("IMAGE_ID")
    }

    /// Returns the lower-case string identifying the OS image version.
    pub fn image_version(&self) -> (r: Option<&str>)
        ensures
            match r {
                Some(v) => spec_get(self@, "IMAGE_VERSION"@) == Some(v@),
                None => spec_get(self@, "IMAGE_VERSION"@) is None,
            },
    {
        self.get_value("IMAGE_VERSION")
    }
}

/// Methods to get presentation information and links.
impl OsRelease {
    /// Returns the logo string, the name of an icon for the operating system.
    pub fn logo(&self) -> (r: Option<&str>)
        ensures
            match r {
                Some(v) => spec_get(self@, "LOGO"@) == Some(v@),
                None => spec_get(self@, "LOGO"@) is None,
            },
    {
        self.get_value("LOGO")
    }

    /// Returns the suggested presentation color when showing the OS name on
    /// the console.
    pub fn ansi_color(&self) -> (r: Option<&str>)
        ensures
            match r {
                Some(v) => spec_get(self@, "ANSI_COLOR"@) == Some(v@),
                None => spec_get(self@, "ANSI_COLOR"@) is None,
            },
    {
        self.get_value("ANSI_COLOR")
    }

    /// Returns the name of the OS vendor.
    pub fn vendor_name(&self) -> (r: Option<&str>)
        ensures
            match r {
                Some(v) => spec_get(self@, "VENDOR_NAME"@) == Some(v@),
                None => spec_get(self@, "VENDOR_NAME"@) is None,
            },
    {
        self.get_value("VENDOR_NAME")
    }
}

/// Methods to get distribution-level defaults and metadata.
impl OsRelease {
    /// Returns the string specifying the hostname to use if no other
    /// configuration source specifies one.
    pub fn default_hostname(&self) -> (r: Option<&str>)
        ensures
            match r {
                Some(v) => spec_get(self@, "DEFAULT_HOSTNAME"@) == Some(v@),
                None => spec_get(self@, "DEFAULT_HOSTNAME"@) is None,
            },
    {
        self.get_value("DEFAULT_HOSTNAME")
    }

    /// Returns the string that specifies which CPU architecture the userspace
    /// binaries require.
    pub fn architecture(&self) -> (r: Option<&str>)
        ensures
            match r {
                Some(v) => spec_get(self@, "ARCHITECTURE"@) == Some(v@),
                None => spec_get(self@, "ARCHITECTURE"@) is None,
            },
    {
        self.get_value("ARCHITECTURE")
    }

    /// Returns the lower-case string identifying the operating system
    /// extensions support level.
    pub fn sysext_level(&self) -> (r: Option<&str>)
        ensures
            match r {
                Some(v) => spec_get(self@, "SYSEXT_LEVEL"@) == Some(v@),
                None => spec_get(self@, "SYSEXT_LEVEL"@) is None,
            },
    {
        self.get_value("SYSEXT_LEVEL")
    }

    /// Returns the lower-case string identifying the operating system confext
    /// support level.
    pub fn confext_level(&self) -> (r: Option<&str>)
        ensures
            match r {
                Some(v) => spec_get(self@, "CONFEXT_LEVEL"@) == Some(v@),
                None => spec_get(self@, "CONFEXT_LEVEL"@) is None,
            },
    {
        self.get_value("CONFEXT_LEVEL")
    }

    /// Returns the list of scopes in which system extension images are
    /// supported.
    pub fn sysext_scope(&self) -> (r: Option<Vec<String>>)
        ensures
            match r {
                Some(l) => spec_get(self@, "SYSEXT_SCOPE"@) matches Some(v) && str_views(l@)
                    == spec_split_ws(v),
                None => spec_get(self@, "SYSEXT_SCOPE"@) is None,
            },
    {
        self.get_value_as_list("SYSEXT_SCOPE")
    }

    /// Returns the list of scopes in which configuration extension images are
    /// supported.
    pub fn confext_scope(&self) -> (r: Option<Vec<String>>)
        ensures
            match r {
                Some(l) => spec_get(self@, "CONFEXT_SCOPE"@) matches Some(v) && str_views(l@)
                    == spec_split_ws(v),
                None => spec_get(self@, "CONFEXT_SCOPE"@) is None,
            },
    {
        self.get_value_as_list("CONFEXT_SCOPE")
    }

    /// Returns the list of valid prefix match strings for the portable
    /// services logic.
    pub fn portable_prefixes(&self) -> (r: Option<Vec<String>>)
        ensures
            match r {
                Some(l) => spec_get(self@, "PORTABLE_PREFIXES"@) matches Some(v) && str_views(l@)
                    == spec_split_ws(v),
                None => spec_get(self@, "PORTABLE_PREFIXES"@) is None,
            },
    {
        self.get_value_as_list("PORTABLE_PREFIXES")
    }
}

} // verus!

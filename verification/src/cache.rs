//! The process-wide handle cache.
//!
//! The bridge resolves every foreign handle it will ever use — class
//! references, method descriptors, the pinned logger object, the handle to
//! the hosting virtual machine — exactly once, behind a blocking one-time
//! gate, and the cache is read-only from then on.  This module holds the
//! cache's state machine and the fixed table of what must be resolved; the
//! shell performs the actual resolution and hands the raw handle words in.
//! Resolution failure is fatal by design and never reaches the cache: the
//! shell aborts startup with a descriptive message instead.
//!
//! Reading a handle before initialization is a contract violation, enforced
//! here by precondition rather than by a runtime check that could be missed:
//! every accessor requires the cache to be initialized.

use vstd::prelude::*;

verus! {

/// The raw foreign handle words the one-time resolution produces, one per
/// cached class, method descriptor, pinned object, and the virtual-machine
/// handle itself.
#[derive(Clone, Copy, PartialEq, Eq, Structural, Debug)]
pub struct ResolvedHandles {
    pub logger_class: u64,
    pub file_class: u64,
    pub installation_class: u64,
    pub component_class: u64,
    pub logger_fine: u64,
    pub logger_finer: u64,
    pub logger_info: u64,
    pub logger_warning: u64,
    pub logger_severe: u64,
    pub logger_get_logger: u64,
    pub file_get_absolute_path: u64,
    pub logger_obj: u64,
    pub java_vm: u64,
}

/// The handle cache: empty until the one-time initialization stores the
/// resolved handles, immutable afterwards.
pub struct HandleCache {
    entries: Option<ResolvedHandles>,
}

impl HandleCache {
    /// Whether the one-time initialization has completed.
    pub closed spec fn is_initialized(self) -> bool {
        self.entries is Some
    }

    /// The cached handles, once initialized.
    pub closed spec fn handles(self) -> ResolvedHandles
        recommends
            self.is_initialized(),
    {
        self.entries->0
    }

    /// The cache after one initialization attempt with resolution result
    /// `r`: the first attempt stores `r`, every later attempt changes
    /// nothing.
    pub closed spec fn spec_after_init(self, r: ResolvedHandles) -> HandleCache {
        if self.is_initialized() {
            self
        } else {
            HandleCache { entries: Some(r) }
        }
    }

    /// An empty cache, as the process starts.
    pub fn new() -> (c: HandleCache)
        ensures
            !c.is_initialized(),
    {
        HandleCache { entries: None }
    }

    /// The one-time initialization step.  The first caller's resolved
    /// handles are stored; a cache that is already initialized is left
    /// exactly as it was, so no handle is ever re-resolved or overwritten.
    pub fn initialize(&mut self, r: ResolvedHandles)
        ensures
            *final(self) == old(self).spec_after_init(r),
            final(self).is_initialized(),
    {
        if self.entries.is_none() {
            self.entries = Some(r);
        }
    }

    /// Whether the handle cache has been initialized.
    pub fn check_cache_initialized(&self) -> (b: bool)
        ensures
            b == self.is_initialized(),
    {
        self.entries.is_some()
    }

    /// All cached handles.  A pure lookup that cannot fail: calling it
    /// before initialization is a contract violation ruled out here.
    pub fn get(&self) -> (h: &ResolvedHandles)
        requires
            self.is_initialized(),
        ensures
            *h == self.handles(),
    {
        self.entries.as_ref().unwrap()
    }

    /// The cached managed file class.
    pub fn get_file_class(&self) -> (h: u64)
        requires
            self.is_initialized(),
        ensures
            h == self.handles().file_class,
    {
        self.get().file_class
    }

    /// The cached absolute-path method descriptor of the file class.
    pub fn get_absolute_path_id(&self) -> (h: u64)
        requires
            self.is_initialized(),
        ensures
            h == self.handles().file_get_absolute_path,
    {
        self.get().file_get_absolute_path
    }

    /// The cached static logger-lookup method descriptor.
    pub fn get_logger_id(&self) -> (h: u64)
        requires
            self.is_initialized(),
        ensures
            h == self.handles().logger_get_logger,
    {
        self.get().logger_get_logger
    }

    /// The cached `fine` method descriptor of the host logger class.
    pub fn get_fine_id(&self) -> (h: u64)
        requires
            self.is_initialized(),
        ensures
            h == self.handles().logger_fine,
    {
        self.get().logger_fine
    }

    /// The cached `finer` method descriptor of the host logger class.
    pub fn get_finer_id(&self) -> (h: u64)
        requires
            self.is_initialized(),
        ensures
            h == self.handles().logger_finer,
    {
        self.get().logger_finer
    }

    /// The cached `info` method descriptor of the host logger class.
    pub fn get_info_id(&self) -> (h: u64)
        requires
            self.is_initialized(),
        ensures
            h == self.handles().logger_info,
    {
        self.get().logger_info
    }

    /// The cached `warning` method descriptor of the host logger class.
    pub fn get_warning_id(&self) -> (h: u64)
        requires
            self.is_initialized(),
        ensures
            h == self.handles().logger_warning,
    {
        self.get().logger_warning
    }

    /// The cached `severe` method descriptor of the host logger class.
    pub fn get_severe_id(&self) -> (h: u64)
        requires
            self.is_initialized(),
        ensures
            h == self.handles().logger_severe,
    {
        self.get().logger_severe
    }

    /// The cached host logger class.
    pub fn get_logger_class(&self) -> (h: u64)
        requires
            self.is_initialized(),
        ensures
            h == self.handles().logger_class,
    {
        self.get().logger_class
    }

    /// The pinned global reference to the bridge's own logger object.
    pub fn get_logger_obj(&self) -> (h: u64)
        requires
            self.is_initialized(),
        ensures
            h == self.handles().logger_obj,
    {
        self.get().logger_obj
    }

    /// The handle to the hosting virtual machine, captured once; a fresh
    /// thread-local environment is derived from it on every call.
    pub fn get_jvm(&self) -> (h: u64)
        requires
            self.is_initialized(),
        ensures
            h == self.handles().java_vm,
    {
        self.get().java_vm
    }
}

/// One-time initialization is idempotent and exactly-once: whatever a later
/// attempt resolves, the cache keeps the handles the first attempt stored,
/// so every reader observes the same handle values.
pub proof fn lemma_initialize_once(c: HandleCache, r1: ResolvedHandles, r2: ResolvedHandles)
    ensures
        c.spec_after_init(r1).spec_after_init(r2) == c.spec_after_init(r1),
        c.spec_after_init(r1).is_initialized(),
        !c.is_initialized() ==> c.spec_after_init(r1).handles() == r1,
        c.is_initialized() ==> c.spec_after_init(r1) == c,
{
}

/// The cache after a whole sequence of initialization attempts, one per
/// caller, in the order the callers arrived.
pub open spec fn spec_after_attempts(c: HandleCache, attempts: Seq<ResolvedHandles>) -> HandleCache
    decreases attempts.len(),
{
    if attempts.len() == 0 {
        c
    } else {
        spec_after_attempts(c.spec_after_init(attempts[0]), attempts.subrange(1, attempts.len() as int))
    }
}

/// However many callers attempt initialization, the resolution of the
/// first is the one that is kept: afterwards the cache is initialized and
/// every caller observes exactly the first attempt's handle values.
pub proof fn lemma_concurrent_initialization_resolves_once(
    c: HandleCache,
    attempts: Seq<ResolvedHandles>,
)
    requires
        !c.is_initialized(),
        attempts.len() >= 1,
    ensures
        spec_after_attempts(c, attempts) == c.spec_after_init(attempts[0]),
        spec_after_attempts(c, attempts).is_initialized(),
        spec_after_attempts(c, attempts).handles() == attempts[0],
{
    lemma_attempts_keep_initialized(
        c.spec_after_init(attempts[0]),
        attempts.subrange(1, attempts.len() as int),
    );
}

/// An initialized cache is left untouched by every further attempt.
proof fn lemma_attempts_keep_initialized(c: HandleCache, attempts: Seq<ResolvedHandles>)
    requires
        c.is_initialized(),
    ensures
        spec_after_attempts(c, attempts) == c,
    decreases attempts.len(),
{
    if attempts.len() > 0 {
        lemma_attempts_keep_initialized(c, attempts.subrange(1, attempts.len() as int));
    }
}

/// A method descriptor the bridge must resolve at startup: its owning class
/// name, member name, and type signature.
pub struct MethodBinding {
    pub class_name: &'static str,
    pub member_name: &'static str,
    pub type_signature: &'static str,
    pub is_static: bool,
}

/// The fixed resolution plan for method descriptors: the five leveled
/// logger methods, the file class's absolute-path accessor, and the static
/// logger lookup.  A miss on any entry is a contract mismatch between the
/// bridge and the managed-side object model, and aborts startup.
pub fn required_method_bindings() -> (r: Vec<MethodBinding>)
    ensures
        r@.len() == 7,
        r@[0].class_name@ == "java/util/logging/Logger"@ && r@[0].member_name@ == "fine"@
            && r@[0].type_signature@ == "(Ljava/lang/String;)V"@ && !r@[0].is_static,
        r@[1].class_name@ == "java/util/logging/Logger"@ && r@[1].member_name@ == "finer"@
            && r@[1].type_signature@ == "(Ljava/lang/String;)V"@ && !r@[1].is_static,
        r@[2].class_name@ == "java/util/logging/Logger"@ && r@[2].member_name@ == "info"@
            && r@[2].type_signature@ == "(Ljava/lang/String;)V"@ && !r@[2].is_static,
        r@[3].class_name@ == "java/util/logging/Logger"@ && r@[3].member_name@ == "warning"@
            && r@[3].type_signature@ == "(Ljava/lang/String;)V"@ && !r@[3].is_static,
        r@[4].class_name@ == "java/util/logging/Logger"@ && r@[4].member_name@ == "severe"@
            && r@[4].type_signature@ == "(Ljava/lang/String;)V"@ && !r@[4].is_static,
        r@[5].class_name@ == "java/io/File"@ && r@[5].member_name@ == "getAbsolutePath"@
            && r@[5].type_signature@ == "()Ljava/lang/String;"@ && !r@[5].is_static,
        r@[6].class_name@ == "java/util/logging/Logger"@ && r@[6].member_name@ == "getLogger"@
            && r@[6].type_signature@ == "(Ljava/lang/String;)Ljava/util/logging/Logger;"@
            && r@[6].is_static,
{
    let mut r: Vec<MethodBinding> = Vec::new();
    r.push(
        MethodBinding {
            class_name: "java/util/logging/Logger",
            member_name: "fine",
            type_signature: "(Ljava/lang/String;)V",
            is_static: false,
        },
    );
    r.push(
        MethodBinding {
            class_name: "java/util/logging/Logger",
            member_name: "finer",
            type_signature: "(Ljava/lang/String;)V",
            is_static: false,
        },
    );
    r.push(
        MethodBinding {
            class_name: "java/util/logging/Logger",
            member_name: "info",
            type_signature: "(Ljava/lang/String;)V",
            is_static: false,
        },
    );
    r.push(
        MethodBinding {
            class_name: "java/util/logging/Logger",
            member_name: "warning",
            type_signature: "(Ljava/lang/String;)V",
            is_static: false,
        },
    );
    r.push(
        MethodBinding {
            class_name: "java/util/logging/Logger",
            member_name: "severe",
            type_signature: "(Ljava/lang/String;)V",
            is_static: false,
        },
    );
    r.push(
        MethodBinding {
            class_name: "java/io/File",
            member_name: "getAbsolutePath",
            type_signature: "()Ljava/lang/String;",
            is_static: false,
        },
    );
    r.push(
        MethodBinding {
            class_name: "java/util/logging/Logger",
            member_name: "getLogger",
            type_signature: "(Ljava/lang/String;)Ljava/util/logging/Logger;",
            is_static: true,
        },
    );
    r
}

/// The fixed resolution plan for classes: each is resolved once and pinned
/// as a global reference for the life of the process.
pub fn required_class_names() -> (r: Vec<&'static str>)
    ensures
        r@.len() == 4,
        r@[0]@ == "java/util/logging/Logger"@,
        r@[1]@ == "java/io/File"@,
        r@[2]@ == "net/wooga/uvm/Installation"@,
        r@[3]@ == "net/wooga/uvm/Component"@,
{
    let mut r: Vec<&'static str> = Vec::new();
    r.push("java/util/logging/Logger");
    r.push("java/io/File");
    r.push("net/wooga/uvm/Installation");
    r.push("net/wooga/uvm/Component");
    r
}

/// The message the bridge aborts startup with when a method descriptor
/// cannot be resolved: it names exactly the class, member and signature
/// that the managed-side object model was expected to provide.
pub fn method_missing_message(binding: &MethodBinding) -> (r: String)
    ensures
        binding.is_static ==> r@ == "Static method "@ + binding.member_name@ + " with signature "@
            + binding.type_signature@ + " of class "@ + binding.class_name@ + " not found"@,
        !binding.is_static ==> r@ == "Method "@ + binding.member_name@ + " with signature "@
            + binding.type_signature@ + " of class "@ + binding.class_name@ + " not found"@,
{
    let mut r = if binding.is_static {
        "Static method ".to_owned()
    } else {
        "Method ".to_owned()
    };
    r.append(binding.member_name);
    r.append(" with signature ");
    r.append(binding.type_signature);
    r.append(" of class ");
    r.append(binding.class_name);
    r.append(" not found");
    r
}

/// The message the bridge aborts startup with when a required class cannot
/// be resolved.
pub fn class_missing_message(class_name: &str) -> (r: String)
    ensures
        r@ == "Class "@ + class_name@ + " not found"@,
{
    let mut r = "Class ".to_owned();
    r.append(class_name);
    r.append(" not found");
    r
}

/// The well-known name under which the bridge's own logger object is
/// looked up and pinned at initialization.
pub fn bridge_logger_name() -> (r: &'static str)
    ensures
        r@ == "net.wooga.uvm.UnityVersionManager.JNI"@,
{
    "net.wooga.uvm.UnityVersionManager.JNI"
}

} // verus!

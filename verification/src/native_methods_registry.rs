use vstd::prelude::*;
use vstd::string::StrSliceExecFns;
use crate::class_file_method::ClassFileMethod;

verus! {

/// The lookup key of a registered native method: class name, method name,
/// and type descriptor.
pub open spec fn spec_registry_key(
    class_name: Seq<char>,
    method_name: Seq<char>,
    type_descriptor: Seq<char>,
) -> (Seq<char>, Seq<char>, Seq<char>) {
    (class_name, method_name, type_descriptor)
}

/// The registered callbacks as a map, a later registration of the same key
/// replacing an earlier one.
pub open spec fn spec_entries_map<T>(entries: Seq<(String, String, String, T)>) -> Map<
    (Seq<char>, Seq<char>, Seq<char>),
    T,
>
    decreases entries.len(),
{
    if entries.len() == 0 {
        Map::empty()
    } else {
        let last = entries.last();
        spec_entries_map(entries.drop_last()).insert((last.0@, last.1@, last.2@), last.3)
    }
}

/// Whether a lookup is diverted to the test-print hook: any class under the
/// `rjvm/` namespace asking for `tempPrint`.
pub open spec fn spec_is_temp_print(class_name: Seq<char>, method_name: Seq<char>) -> bool {
    class_name.len() >= 5 && class_name.subrange(0, 5) == "rjvm/"@ && method_name == "tempPrint"@
}

/// A registry of native-method callbacks, keyed by class name, method name
/// and type descriptor. The callback type is the caller's; the registry only
/// stores and hands back values of it.
pub struct NativeMethodsRegistry<T> {
    methods: Vec<(String, String, String, T)>,
    /// Hook for checking that integration tests can observe printed values:
    /// the registered callback answers every `tempPrint` lookup under the
    /// `rjvm/` namespace.
    temp_print_callback: Option<T>,
}

impl<T: Copy> View for NativeMethodsRegistry<T> {
    type V = Map<(Seq<char>, Seq<char>, Seq<char>), T>;

    closed spec fn view(&self) -> Map<(Seq<char>, Seq<char>, Seq<char>), T> {
        spec_entries_map(self.methods@)
    }
}

impl<T: Copy> NativeMethodsRegistry<T> {
    /// The registered test-print hook, if any.
    pub closed spec fn spec_temp_print(&self) -> Option<T> {
        self.temp_print_callback
    }

    /// Registers a callback for a class, method and descriptor, replacing
    /// any callback registered for that key before.
    pub fn register(
        &mut self,
        class_name: &str,
        method_name: &str,
        type_descriptor: &str,
        callback: T,
    )
        ensures
            final(self)@ == old(self)@.insert(
                spec_registry_key(class_name@, method_name@, type_descriptor@),
                callback,
            ),
            final(self).spec_temp_print() == old(self).spec_temp_print(),
    {
        let entry = (class_name.to_owned(), method_name.to_owned(), type_descriptor.to_owned(), callback);
        let ghost before = self.methods@;
        self.methods.push(entry);
        proof {
            assert(self.methods@.drop_last() =~= before);
        }
    }

    /// Registers the test-print hook.
    pub fn register_temp_print(&mut self, callback: T)
        ensures
            final(self)@ == old(self)@,
            final(self).spec_temp_print() == Some(callback),
    {
        self.temp_print_callback = Some(callback);
    }

    /// Looks up the callback for a decoded method of a named class.
    pub fn get_method(&self, class_name: &str, method: &ClassFileMethod) -> (r: Option<T>)
        ensures
            spec_is_temp_print(class_name@, method.name@) ==> r == self.spec_temp_print(),
            !spec_is_temp_print(class_name@, method.name@) ==> r == (
            if self@.dom().contains(
                spec_registry_key(class_name@, method.name@, method.type_descriptor@),
            ) {
                Some(
                    self@[spec_registry_key(class_name@, method.name@, method.type_descriptor@)],
                )
            } else {
                None
            }),
    {
        self.get(class_name, method.name.as_str(), method.type_descriptor.as_str())
    }

    /// Looks up the callback for a class name, method name and descriptor:
    /// a `tempPrint` lookup under the `rjvm/` namespace is answered by the
    /// test-print hook; anything else by the registered map.
    #[verifier::loop_isolation(false)]
    pub fn get(&self, class_name: &str, method_name: &str, type_descriptor: &str) -> (r: Option<
        T,
    >)
        ensures
            spec_is_temp_print(class_name@, method_name@) ==> r == self.spec_temp_print(),
            !spec_is_temp_print(class_name@, method_name@) ==> r == (
            if self@.dom().contains(
                spec_registry_key(class_name@, method_name@, type_descriptor@),
            ) {
                Some(self@[spec_registry_key(class_name@, method_name@, type_descriptor@)])
            } else {
                None
            }),
    {
        if has_rjvm_prefix(class_name) && str_equal(method_name, "tempPrint") {
            return self.temp_print_callback;
        }
        let ghost key = spec_registry_key(class_name@, method_name@, type_descriptor@);
        let mut i: usize = self.methods.len();
        proof {
            assert(self.methods@.subrange(0, i as int) =~= self.methods@);
        }
        while i > 0
            invariant
                i <= self.methods@.len(),
                spec_entries_map(self.methods@).dom().contains(key) == spec_entries_map(
                    self.methods@.subrange(0, i as int),
                ).dom().contains(key),
                spec_entries_map(self.methods@).dom().contains(key)
                    ==> spec_entries_map(self.methods@)[key] == spec_entries_map(
                    self.methods@.subrange(0, i as int),
                )[key],
            decreases i,
        {
            i = i - 1;
            let entry = &self.methods[i];
            let ghost prefix = self.methods@.subrange(0, i + 1);
            proof {
                assert(prefix.drop_last() =~= self.methods@.subrange(0, i as int));
                assert(prefix.last() == self.methods@[i as int]);
            }
            if str_equal(entry.0.as_str(), class_name) && str_equal(entry.1.as_str(), method_name)
                && str_equal(entry.2.as_str(), type_descriptor) {
                return Some(entry.3);
            }
        }
        proof {
            assert(spec_entries_map(self.methods@.subrange(0, 0)).dom().contains(key) == false);
        }
        None
    }
}

impl<T: Copy> Default for NativeMethodsRegistry<T> {
    /// An empty registry with no callbacks and no test-print hook.
    fn default() -> (r: Self)
        ensures
            r@ == Map::<(Seq<char>, Seq<char>, Seq<char>), T>::empty(),
            r.spec_temp_print() is None,
    {
        NativeMethodsRegistry { methods: Vec::new(), temp_print_callback: None }
    }
}

/// Compares two strings by character content.
fn str_equal(a: &str, b: &str) -> (r: bool)
    ensures
        r == (a@ == b@),
{
    let owned_a: String = a.to_owned();
    let owned_b: String = b.to_owned();
    owned_a.eq(&owned_b)
}

/// Whether a class name lies under the `rjvm/` namespace.
fn has_rjvm_prefix(s: &str) -> (r: bool)
    ensures
        r == (s@.len() >= 5 && s@.subrange(0, 5) == "rjvm/"@),
{
    proof {
        reveal_strlit("rjvm/");
    }
    let n = s.unicode_len();
    if n < 5 {
        return false;
    }
    let r = s.get_char(0) == 'r' && s.get_char(1) == 'j' && s.get_char(2) == 'v' && s.get_char(3)
        == 'm' && s.get_char(4) == '/';
    proof {
        if r {
            assert(s@.subrange(0, 5) =~= "rjvm/"@);
        } else {
            if s@.subrange(0, 5) == "rjvm/"@ {
                assert(s@[0] == "rjvm/"@[0]);
                assert(s@[1] == "rjvm/"@[1]);
                assert(s@[2] == "rjvm/"@[2]);
                assert(s@[3] == "rjvm/"@[3]);
                assert(s@[4] == "rjvm/"@[4]);
            }
        }
    }
    r
}

} // verus!

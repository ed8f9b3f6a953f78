//! Type representation resolver: for each field, the owned, borrowed,
//! parameter-input and ergonomic-generic spelling of its type.

use vstd::prelude::*;

use crate::text::{append_decimal, decimal, views, wrap_option, wrap_option_exec};

verus! {

/// How a base type is represented apart from its owned form.
#[derive(Clone, Copy, Debug, PartialEq, Eq, Structural)]
pub enum TypeKind {
    /// Trivially copyable: the same spelling in every representation.
    Copy,
    /// Borrowed as a reference `&'a <brw_name>` (text, bytes, json...).
    Ref,
    /// A generated custom type that is not copyable: borrowed as
    /// `<own_name>Borrowed<'a>`, sent as `<own_name>Params<'a>`, or as the
    /// borrowed form when the type already serves as parameters.
    Custom { is_params: bool },
}

/// A resolved base type of a field.
#[derive(Clone, Debug)]
pub struct CornucopiaType {
    pub kind: TypeKind,
    /// Owned spelling of one element (`i32`, `String`, `super::public::Foo`).
    pub own_name: String,
    /// Referent of the borrowed spelling, for `TypeKind::Ref` (`str`, `[u8]`).
    pub brw_name: String,
    /// Capability trait, relative to the runtime helper module, that lets
    /// callers pass any compatible value (`StringSql`).
    pub ergo_bound: Option<String>,
    /// The field holds an array of such elements.
    pub is_array: bool,
}

/// Runtime helper module of an execution mode.
pub open spec fn client_mod(is_async: bool) -> Seq<char> {
    if is_async { "cornucopia_async"@ } else { "cornucopia_sync"@ }
}

pub fn client_mod_exec(is_async: bool) -> (r: &'static str)
    ensures
        r@ == client_mod(is_async),
{
    if is_async { "cornucopia_async" } else { "cornucopia_sync" }
}

/// Lifetime written in borrowed spellings.
pub open spec fn lifetime(has_lifetime: bool) -> Seq<char> {
    if has_lifetime { "'a"@ } else { "'_"@ }
}

fn lifetime_exec(has_lifetime: bool) -> (r: &'static str)
    ensures
        r@ == lifetime(has_lifetime),
{
    if has_lifetime { "'a" } else { "'_" }
}

impl CornucopiaType {
    pub open spec fn own_elem(&self) -> Seq<char> {
        self.own_name@
    }

    pub open spec fn brw_elem(&self, has_lifetime: bool) -> Seq<char> {
        match self.kind {
            TypeKind::Copy => self.own_name@,
            TypeKind::Ref => "&"@ + lifetime(has_lifetime) + " "@ + self.brw_name@,
            TypeKind::Custom { .. } => self.own_name@ + "Borrowed<"@ + lifetime(has_lifetime) + ">"@,
        }
    }

    pub open spec fn param_elem(&self) -> Seq<char> {
        match self.kind {
            TypeKind::Copy => self.own_name@,
            TypeKind::Ref => "&'a "@ + self.brw_name@,
            TypeKind::Custom { is_params } => if is_params {
                self.own_name@ + "Borrowed<'a>"@
            } else {
                self.own_name@ + "Params<'a>"@
            },
        }
    }

    /// Owned representation, before the outer optional level.
    pub open spec fn own_ty_spec(&self, inner: bool) -> Seq<char> {
        let e = wrap_option(inner, self.own_elem());
        if self.is_array { "Vec<"@ + e + ">"@ } else { e }
    }

    /// Borrowed representation, before the outer optional level.
    pub open spec fn brw_ty_spec(&self, inner: bool, has_lifetime: bool, is_async: bool) -> Seq<char> {
        let e = wrap_option(inner, self.brw_elem(has_lifetime));
        if self.is_array {
            client_mod(is_async) + "::ArrayIterator<"@ + lifetime(has_lifetime) + ", "@ + e + ">"@
        } else {
            e
        }
    }

    /// Parameter-input representation, before the outer optional level.
    pub open spec fn param_ty_spec(&self, inner: bool) -> Seq<char> {
        let e = wrap_option(inner, self.param_elem());
        if self.is_array { "&'a ["@ + e + "]"@ } else { e }
    }

    /// Whether the parameter is spelled as an ergonomic generic parameter.
    pub open spec fn is_ergo(&self) -> bool {
        self.is_array || self.ergo_bound.is_some()
    }

    /// Capability bound that an ergonomic parameter of this type requires.
    pub open spec fn ergo_bound_spec(&self, inner: bool, is_async: bool) -> Seq<char> {
        if self.is_array {
            client_mod(is_async) + "::ArraySql<Item = "@ + wrap_option(inner, self.param_elem()) + ">"@
        } else {
            client_mod(is_async) + "::"@ + self.ergo_bound.unwrap()@
        }
    }

    /// Whether turning the borrowed form into the owned one is the identity.
    pub open spec fn owning_is_identity(&self) -> bool {
        !self.is_array && self.kind == TypeKind::Copy
    }

    /// Conversion of one borrowed element held in `x` into its owned form.
    pub open spec fn elem_conv(&self, x: Seq<char>, inner: bool) -> Seq<char> {
        if self.kind == TypeKind::Copy {
            x
        } else if inner {
            x + ".map(|v| v.into())"@
        } else {
            x + ".into()"@
        }
    }

    /// Conversion of a non-null borrowed value held in `x` into its owned form.
    pub open spec fn conv_nonnull(&self, x: Seq<char>, inner: bool) -> Seq<char> {
        if self.is_array {
            if self.kind == TypeKind::Copy {
                x + ".collect()"@
            } else {
                x + ".map(|v| "@ + self.elem_conv("v"@, inner) + ").collect()"@
            }
        } else {
            self.elem_conv(x, inner)
        }
    }

    /// Expression that turns the borrowed value named `name` into its owned form.
    pub open spec fn owning_call_spec(&self, name: Seq<char>, nullable: bool, inner: bool) -> Seq<char> {
        if nullable && !self.owning_is_identity() {
            name + ".map(|v| "@ + self.conv_nonnull("v"@, inner) + ")"@
        } else {
            self.conv_nonnull(name, inner)
        }
    }

    fn own_elem_exec(&self) -> (r: String)
        ensures
            r@ == self.own_elem(),
    {
        self.own_name.clone()
    }

    fn brw_elem_exec(&self, has_lifetime: bool) -> (r: String)
        ensures
            r@ == self.brw_elem(has_lifetime),
    {
        match self.kind {
            TypeKind::Copy => self.own_name.clone(),
            TypeKind::Ref => {
                let mut s = String::new();
                s.append("&");
                s.append(lifetime_exec(has_lifetime));
                s.append(" ");
                s.append(self.brw_name.as_str());
                s
            },
            TypeKind::Custom { .. } => {
                let mut s = self.own_name.clone();
                s.append("Borrowed<");
                s.append(lifetime_exec(has_lifetime));
                s.append(">");
                s
            },
        }
    }

    fn param_elem_exec(&self) -> (r: String)
        ensures
            r@ == self.param_elem(),
    {
        match self.kind {
            TypeKind::Copy => self.own_name.clone(),
            TypeKind::Ref => {
                let mut s = String::new();
                s.append("&'a ");
                s.append(self.brw_name.as_str());
                s
            },
            TypeKind::Custom { is_params } => {
                let mut s = self.own_name.clone();
                if is_params {
                    s.append("Borrowed<'a>");
                } else {
                    s.append("Params<'a>");
                }
                s
            },
        }
    }

    /// Owned spelling; `inner` wraps each element in an optional level.
    pub fn own_ty(&self, inner: bool) -> (r: String)
        ensures
            r@ == self.own_ty_spec(inner),
    {
        let e = wrap_option_exec(inner, self.own_elem_exec());
        if self.is_array {
            let mut s = String::new();
            s.append("Vec<");
            s.append(e.as_str());
            s.append(">");
            s
        } else {
            e
        }
    }

    /// Borrowed spelling, valid only inside one decode-and-map step.
    pub fn brw_ty(&self, inner: bool, has_lifetime: bool, is_async: bool) -> (r: String)
        ensures
            r@ == self.brw_ty_spec(inner, has_lifetime, is_async),
    {
        let e = wrap_option_exec(inner, self.brw_elem_exec(has_lifetime));
        if self.is_array {
            let mut s = String::new();
            s.append(client_mod_exec(is_async));
            s.append("::ArrayIterator<");
            s.append(lifetime_exec(has_lifetime));
            s.append(", ");
            s.append(e.as_str());
            s.append(">");
            s
        } else {
            e
        }
    }

    /// Parameter-input spelling.
    pub fn param_ty(&self, inner: bool) -> (r: String)
        ensures
            r@ == self.param_ty_spec(inner),
    {
        let e = wrap_option_exec(inner, self.param_elem_exec());
        if self.is_array {
            let mut s = String::new();
            s.append("&'a [");
            s.append(e.as_str());
            s.append("]");
            s
        } else {
            e
        }
    }

    fn ergo_bound_exec(&self, inner: bool, is_async: bool) -> (r: String)
        requires
            self.is_ergo(),
        ensures
            r@ == self.ergo_bound_spec(inner, is_async),
    {
        let mut s = String::new();
        s.append(client_mod_exec(is_async));
        if self.is_array {
            s.append("::ArraySql<Item = ");
            let e = wrap_option_exec(inner, self.param_elem_exec());
            s.append(e.as_str());
            s.append(">");
        } else {
            s.append("::");
            match &self.ergo_bound {
                Some(b) => s.append(b.as_str()),
                None => {},
            }
        }
        s
    }

    /// Ergonomic spelling: a generic parameter `T<k>` whose bound is recorded
    /// in `traits` (once; `k` is its 1-based place there), or the
    /// parameter-input spelling where the type takes no such parameter.
    pub fn param_ergo_ty(&self, inner: bool, is_async: bool, traits: &mut Vec<String>) -> (r: String)
        requires
            views(old(traits)@).no_duplicates(),
            old(traits)@.len() < usize::MAX,
        ensures
            r@ == self.ergo_ty_spec(inner, is_async, views(old(traits)@)),
            views(final(traits)@) == self.bounds_after(inner, is_async, views(old(traits)@)),
            views(final(traits)@).no_duplicates(),
    {
        if self.is_array || self.ergo_bound.is_some() {
            let b = self.ergo_bound_exec(inner, is_async);
            let k = record_bound(traits, b);
            idx_char(k + 1)
        } else {
            self.param_ty(inner)
        }
    }

    /// Ergonomic spelling, given the bounds recorded so far.
    pub open spec fn ergo_ty_spec(&self, inner: bool, is_async: bool, bounds: Seq<Seq<char>>) -> Seq<char> {
        if self.is_ergo() {
            idx_char_spec((bound_index(bounds, self.ergo_bound_spec(inner, is_async)) + 1) as nat)
        } else {
            self.param_ty_spec(inner)
        }
    }

    /// Recorded bounds after this type's ergonomic spelling.
    pub open spec fn bounds_after(&self, inner: bool, is_async: bool, bounds: Seq<Seq<char>>) -> Seq<Seq<char>> {
        if self.is_ergo() {
            add_bound(bounds, self.ergo_bound_spec(inner, is_async))
        } else {
            bounds
        }
    }

    fn elem_conv_exec(&self, x: &str, inner: bool) -> (r: String)
        ensures
            r@ == self.elem_conv(x@, inner),
    {
        let mut s = String::from_str(x);
        if self.kind == TypeKind::Copy {
        } else if inner {
            s.append(".map(|v| v.into())");
        } else {
            s.append(".into()");
        }
        s
    }

    fn conv_nonnull_exec(&self, x: &str, inner: bool) -> (r: String)
        ensures
            r@ == self.conv_nonnull(x@, inner),
    {
        if self.is_array {
            let mut s = String::from_str(x);
            if self.kind == TypeKind::Copy {
                s.append(".collect()");
            } else {
                s.append(".map(|v| ");
                let e = self.elem_conv_exec("v", inner);
                s.append(e.as_str());
                s.append(").collect()");
            }
            s
        } else {
            self.elem_conv_exec(x, inner)
        }
    }

    /// Expression that turns the borrowed value named `name` into its owned form.
    pub fn owning_call(&self, name: &str, nullable: bool, inner: bool) -> (r: String)
        ensures
            r@ == self.owning_call_spec(name@, nullable, inner),
    {
        if nullable && !(!self.is_array && self.kind == TypeKind::Copy) {
            let mut s = String::from_str(name);
            s.append(".map(|v| ");
            let c = self.conv_nonnull_exec("v", inner);
            s.append(c.as_str());
            s.append(")");
            s
        } else {
            self.conv_nonnull_exec(name, inner)
        }
    }
}

/// Place of `b` among `bounds`, or the place it takes when appended.
pub open spec fn bound_index(bounds: Seq<Seq<char>>, b: Seq<char>) -> int {
    if bounds.contains(b) {
        choose|i: int| 0 <= i < bounds.len() && bounds[i] == b
    } else {
        bounds.len() as int
    }
}

/// `bounds` with `b` appended unless already there.
pub open spec fn add_bound(bounds: Seq<Seq<char>>, b: Seq<char>) -> Seq<Seq<char>> {
    if bounds.contains(b) { bounds } else { bounds.push(b) }
}

/// Records `bound` in `traits` unless an equal bound is already there, and
/// returns its 0-based place.
pub fn record_bound(traits: &mut Vec<String>, bound: String) -> (k: usize)
    requires
        views(old(traits)@).no_duplicates(),
        old(traits)@.len() < usize::MAX,
    ensures
        views(final(traits)@) == add_bound(views(old(traits)@), bound@),
        views(final(traits)@).no_duplicates(),
        k as int == bound_index(views(old(traits)@), bound@),
{
    let ghost vs = views(traits@);
    let n = traits.len();
    let mut i: usize = 0;
    while i < n
        invariant
            n == traits@.len(),
            traits@ == old(traits)@,
            vs == views(traits@),
            vs.no_duplicates(),
            i <= n,
            forall|j: int| 0 <= j < i ==> vs[j] != bound@,
        decreases n - i,
    {
        if traits[i] == bound {
            assert(vs[i as int] == bound@);
            assert(vs.contains(bound@));
            let ghost c = choose|c: int| 0 <= c < vs.len() && vs[c] == bound@;
            assert(c == i);
            return i;
        }
        i = i + 1;
    }
    traits.push(bound);
    proof {
        assert(!vs.contains(bound@));
        assert(views(traits@) =~= vs.push(bound@));
        assert forall|a: int, c: int| 0 <= a < vs.len() + 1 && 0 <= c < vs.len() + 1 && a != c
            implies vs.push(bound@)[a] != vs.push(bound@)[c] by {
            if a < vs.len() && c < vs.len() {
            } else if a < vs.len() {
                assert(vs.contains(vs[a]));
            } else {
                assert(vs.contains(vs[c]));
            }
        }
    }
    n
}

/// Name of the `idx`-th generic type parameter.
pub open spec fn idx_char_spec(idx: nat) -> Seq<char> {
    "T"@ + decimal(idx)
}

/// Name of the `idx`-th generic type parameter: `T` followed by `idx`.
pub fn idx_char(idx: usize) -> (r: String)
    ensures
        r@ == idx_char_spec(idx as nat),
{
    let mut s = String::from_str("T");
    append_decimal(&mut s, idx);
    s
}

/// A field of a row shape, a parameter shape or a composite type.
#[derive(Clone, Debug)]
pub struct PreparedField {
    pub name: String,
    pub ty: CornucopiaType,
    pub is_nullable: bool,
    pub is_inner_nullable: bool,
}

impl PreparedField {
    pub open spec fn own_struct_spec(&self) -> Seq<char> {
        wrap_option(self.is_nullable, self.ty.own_ty_spec(self.is_inner_nullable))
    }

    pub open spec fn brw_ty_spec(&self, has_lifetime: bool, is_async: bool) -> Seq<char> {
        wrap_option(self.is_nullable, self.ty.brw_ty_spec(self.is_inner_nullable, has_lifetime, is_async))
    }

    pub open spec fn param_ty_spec(&self) -> Seq<char> {
        wrap_option(self.is_nullable, self.ty.param_ty_spec(self.is_inner_nullable))
    }

    pub open spec fn owning_call_spec(&self, name: Seq<char>) -> Seq<char> {
        self.ty.owning_call_spec(name, self.is_nullable, self.is_inner_nullable)
    }

    pub open spec fn owning_assign_spec(&self) -> Seq<char> {
        let call = self.owning_call_spec(self.name@);
        if call == self.name@ { call } else { self.name@ + ": "@ + call }
    }

    /// Owned field type, as stored in generated structs.
    pub fn own_struct(&self) -> (r: String)
        ensures
            r@ == self.own_struct_spec(),
    {
        let it = self.ty.own_ty(self.is_inner_nullable);
        wrap_option_exec(self.is_nullable, it)
    }

    pub open spec fn ergo_ty_spec(&self, is_async: bool, bounds: Seq<Seq<char>>) -> Seq<char> {
        wrap_option(self.is_nullable, self.ty.ergo_ty_spec(self.is_inner_nullable, is_async, bounds))
    }

    pub open spec fn bounds_after(&self, is_async: bool, bounds: Seq<Seq<char>>) -> Seq<Seq<char>> {
        self.ty.bounds_after(self.is_inner_nullable, is_async, bounds)
    }

    /// Ergonomic parameter type; see `CornucopiaType::param_ergo_ty`.
    pub fn param_ergo_ty(&self, is_async: bool, traits: &mut Vec<String>) -> (r: String)
        requires
            views(old(traits)@).no_duplicates(),
            old(traits)@.len() < usize::MAX,
        ensures
            r@ == self.ergo_ty_spec(is_async, views(old(traits)@)),
            views(final(traits)@) == self.bounds_after(is_async, views(old(traits)@)),
            views(final(traits)@).no_duplicates(),
    {
        let it = self.ty.param_ergo_ty(self.is_inner_nullable, is_async, traits);
        wrap_option_exec(self.is_nullable, it)
    }

    /// Parameter-input field type.
    pub fn param_ty(&self, is_async: bool) -> (r: String)
        ensures
            r@ == self.param_ty_spec(),
    {
        let it = self.ty.param_ty(self.is_inner_nullable);
        wrap_option_exec(self.is_nullable, it)
    }

    /// Borrowed field type.
    pub fn brw_ty(&self, has_lifetime: bool, is_async: bool) -> (r: String)
        ensures
            r@ == self.brw_ty_spec(has_lifetime, is_async),
    {
        let it = self.ty.brw_ty(self.is_inner_nullable, has_lifetime, is_async);
        wrap_option_exec(self.is_nullable, it)
    }

    /// Expression turning the borrowed value named `name` (or the field's
    /// own name) into the owned one.
    pub fn owning_call(&self, name: Option<&str>) -> (r: String)
        ensures
            r@ == self.owning_call_spec(match name { Some(n) => n@, None => self.name@ }),
    {
        let n: &str = match name {
            Some(n) => n,
            None => self.name.as_str(),
        };
        self.ty.owning_call(n, self.is_nullable, self.is_inner_nullable)
    }

    /// Field initialiser of the borrowed-to-owned conversion, in shorthand
    /// form where the conversion is the identity.
    pub fn owning_assign(&self) -> (r: String)
        ensures
            r@ == self.owning_assign_spec(),
    {
        let call = self.owning_call(None);
        if call == self.name {
            call
        } else {
            let mut s = self.name.clone();
            s.append(": ");
            s.append(call.as_str());
            s
        }
    }
}

} // verus!

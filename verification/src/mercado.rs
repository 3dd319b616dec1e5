//! The executable ledger.
//!
//! The registry is a vector of profiles in registration order, in which no
//! identity occurs twice. Beside each profile stand the party's two secondary
//! indices: the positions of its listings in the catalog and of its orders in
//! the order ledger. The catalog and the orders only grow; the one write to an
//! existing record is the stock of a listing when it is ordered.
//!
//! Finding a party's profile walks the registry. Finding its records does not
//! walk the catalog or the orders: an id is a position, and the party's index
//! holds the positions.

use crate::cuenta::AccountId;
use crate::indice::{
    lemma_posiciones_filtran, lemma_posiciones_iguales, lemma_posiciones_push,
    lemma_posiciones_resuelven, posiciones,
};
use crate::leyes::{
    ley_ordenar_compra_valido, ley_publicar_valido, ley_registrar_usuario_valido,
    ley_sin_perfil_sin_registros,
};
use crate::libro::{es_de_comprador, es_de_vendedor, Libro};
use crate::tipos::{Categoria, ErrorSistema, Estado, OrdenCompra, Publicacion, Rol, Usuario};
use vstd::prelude::*;

verus! {

/// No identity occurs twice among the profiles.
spec fn distintos(us: Seq<Usuario>) -> bool {
    forall|i: int, j: int|
        0 <= i < j < us.len() ==> (#[trigger] us[i]).account_id != (#[trigger] us[j]).account_id
}

/// Whether `k` is the place of the profile of `id` among the profiles.
spec fn es_lugar(us: Seq<Usuario>, id: AccountId, k: int) -> bool {
    0 <= k < us.len() && us[k].account_id == id
}

/// The registry that a sequence of profiles stands for.
spec fn perfiles(us: Seq<Usuario>) -> Map<AccountId, Usuario>
    decreases us.len(),
{
    if us.len() == 0 {
        Map::empty()
    } else {
        perfiles(us.drop_last()).insert(us.last().account_id, us.last())
    }
}

/// The registry holds each profile of the sequence under its own identity,
/// and no other identity.
proof fn lemma_perfiles(us: Seq<Usuario>)
    requires
        distintos(us),
    ensures
        forall|k: int|
            0 <= k < us.len() ==> perfiles(us).contains_key((#[trigger] us[k]).account_id)
                && perfiles(us)[us[k].account_id] == us[k],
        forall|id: AccountId| #[trigger]
            perfiles(us).contains_key(id) ==> exists|k: int|
                0 <= k < us.len() && (#[trigger] us[k]).account_id == id,
    decreases us.len(),
{
    if us.len() > 0 {
        let resto = us.drop_last();
        lemma_perfiles(resto);
        assert forall|k: int| 0 <= k < us.len() implies perfiles(us).contains_key(
            (#[trigger] us[k]).account_id,
        ) && perfiles(us)[us[k].account_id] == us[k] by {
            if k < us.len() - 1 {
                assert(resto[k] == us[k]);
                assert(us[k].account_id != us[us.len() - 1].account_id);
            }
        }
        assert forall|id: AccountId| #[trigger] perfiles(us).contains_key(id) implies exists|
            k: int,
        |
            0 <= k < us.len() && (#[trigger] us[k]).account_id == id by {
            if id == us.last().account_id {
                assert(us[us.len() - 1].account_id == id);
            } else {
                assert(perfiles(resto).contains_key(id));
                let k = choose|k: int|
                    0 <= k < resto.len() && (#[trigger] resto[k]).account_id == id;
                assert(us[k] == resto[k]);
            }
        }
    }
}

/// The marketplace ledger: the user registry, the catalog, the orders, and
/// the per-party indices into the last two.
pub struct Marketplace {
    usuarios: Vec<Usuario>,
    publicaciones: Vec<Publicacion>,
    ordenes_compra: Vec<OrdenCompra>,
    publicaciones_mapping: Vec<Vec<u32>>,
    ordenes_compra_mapping: Vec<Vec<u32>>,
}

impl View for Marketplace {
    type V = Libro;

    closed spec fn view(&self) -> Libro {
        Libro {
            usuarios: perfiles(self.usuarios@),
            publicaciones: self.publicaciones@,
            ordenes_compra: self.ordenes_compra@,
        }
    }
}

impl Marketplace {
    /// The positions, in the catalog, that the ledger keeps as the listings of
    /// `id`: empty for a party that is not registered.
    pub closed spec fn indice_vendedor(&self, id: AccountId) -> Seq<u32> {
        if exists|k: int| es_lugar(self.usuarios@, id, k) {
            self.publicaciones_mapping[choose|k: int| es_lugar(self.usuarios@, id, k)]@
        } else {
            Seq::empty()
        }
    }

    /// The positions, in the order ledger, that the ledger keeps as the orders
    /// of `id`: empty for a party that is not registered.
    pub closed spec fn indice_comprador(&self, id: AccountId) -> Seq<u32> {
        if exists|k: int| es_lugar(self.usuarios@, id, k) {
            self.ordenes_compra_mapping[choose|k: int| es_lugar(self.usuarios@, id, k)]@
        } else {
            Seq::empty()
        }
    }

    /// The ledger is well formed: no identity is registered twice, each
    /// party's indices hold exactly the positions of its own records, oldest
    /// first, and the abstract state is valid.
    pub closed spec fn wf(&self) -> bool {
        &&& distintos(self.usuarios@)
        &&& self.publicaciones_mapping.len() == self.usuarios.len()
        &&& self.ordenes_compra_mapping.len() == self.usuarios.len()
        &&& forall|k: int|
            0 <= k < self.usuarios.len() ==> (#[trigger] self.publicaciones_mapping[k])@
                == posiciones(self.publicaciones@, es_de_vendedor(self.usuarios[k].account_id))
        &&& forall|k: int|
            0 <= k < self.usuarios.len() ==> (#[trigger] self.ordenes_compra_mapping[k])@
                == posiciones(self.ordenes_compra@, es_de_comprador(self.usuarios[k].account_id))
        &&& self@.valido()
    }

    /// A well-formed ledger stands for a valid abstract state.
    pub proof fn lemma_valido(&self)
        requires
            self.wf(),
        ensures
            self@.valido(),
    {
    }

    /// The secondary indices hold what they must: the index of a party is the
    /// ascending sequence of the positions of its own records, so it has no
    /// position twice, none out of range and none of another party, and it
    /// misses none.
    pub proof fn lemma_indices(&self, id: AccountId)
        requires
            self.wf(),
        ensures
            self.indice_vendedor(id) == posiciones(self@.publicaciones, es_de_vendedor(id)),
            self.indice_comprador(id) == posiciones(self@.ordenes_compra, es_de_comprador(id)),
    {
        lemma_perfiles(self.usuarios@);
        if !(exists|k: int| es_lugar(self.usuarios@, id, k)) {
            if self@.usuarios.contains_key(id) {
                let k = choose|k: int|
                    0 <= k < self.usuarios@.len() && (#[trigger] self.usuarios@[k]).account_id
                        == id;
                assert(es_lugar(self.usuarios@, id, k));
            }
            ley_sin_perfil_sin_registros(self@, id);
        }
    }

    /// The empty ledger.
    pub fn new() -> (r: Self)
        ensures
            r.wf(),
            r@ == Libro::vacio(),
    {
        Marketplace {
            usuarios: Vec::new(),
            publicaciones: Vec::new(),
            ordenes_compra: Vec::new(),
            publicaciones_mapping: Vec::new(),
            ordenes_compra_mapping: Vec::new(),
        }
    }

    /// The place of the caller's profile in the registry, if it has one.
    fn buscar(&self, caller: AccountId) -> (r: Option<usize>)
        requires
            distintos(self.usuarios@),
        ensures
            match r {
                Some(k) => k < self.usuarios.len() && self.usuarios[k as int].account_id == caller
                    && self@.get_usuario(caller) == Ok::<Usuario, ErrorSistema>(
                    self.usuarios[k as int],
                ),
                None => !self@.usuarios.contains_key(caller),
            },
    {
        let mut k: usize = 0;
        while k < self.usuarios.len()
            invariant
                k <= self.usuarios.len(),
                distintos(self.usuarios@),
                forall|t: int| 0 <= t < k ==> (#[trigger] self.usuarios[t]).account_id != caller,
            decreases self.usuarios.len() - k,
        {
            if self.usuarios[k].account_id == caller {
                proof {
                    lemma_perfiles(self.usuarios@);
                }
                return Some(k);
            }
            k += 1;
        }
        proof {
            lemma_perfiles(self.usuarios@);
        }
        None
    }

    /// Registers the caller under `username` with role `rol`. A party has at
    /// most one profile: a second registration is refused with
    /// `UsuarioYaRegistrado` and changes nothing.
    pub fn registrar_usuario(&mut self, caller: AccountId, username: String, rol: Rol) -> (r:
        Result<Usuario, ErrorSistema>)
        requires
            old(self).wf(),
        ensures
            final(self).wf(),
            r == old(self)@.registrar_usuario(caller, username, rol),
            final(self)@ == old(self)@.tras_registrar_usuario(caller, username, rol),
    {
        if self.buscar(caller).is_some() {
            return Err(ErrorSistema::UsuarioYaRegistrado);
        }
        let usuario = Usuario { username, rol, account_id: caller };
        proof {
            ley_registrar_usuario_valido(self@, caller, username, rol);
            lemma_perfiles(self.usuarios@);
            assert(self.usuarios@.push(usuario).drop_last() =~= self.usuarios@);
            ley_sin_perfil_sin_registros(self@, caller);
        }
        self.usuarios.push(usuario.clone());
        self.publicaciones_mapping.push(Vec::new());
        self.ordenes_compra_mapping.push(Vec::new());
        Ok(usuario)
    }

    /// The caller's profile, or `UsuarioNoRegistrado`.
    pub fn get_usuario(&self, caller: AccountId) -> (r: Result<Usuario, ErrorSistema>)
        requires
            self.wf(),
        ensures
            r == self@.get_usuario(caller),
    {
        match self.buscar(caller) {
            Some(k) => Ok(self.usuarios[k].clone()),
            None => Err(ErrorSistema::UsuarioNoRegistrado),
        }
    }

    /// Publishes a listing of the caller. The listing's id is its position in
    /// the catalog, that is the catalog's length before the call, and the id
    /// is added to the caller's own index. The caller must be a registered
    /// seller, and the catalog must have room: it holds at most `u32::MAX`
    /// listings, so that every position and the running length fit a `u32`.
    /// A refused publication changes nothing.
    pub fn publicar(
        &mut self,
        caller: AccountId,
        nombre_producto: String,
        descripcion: String,
        precio: u64,
        categoria: Categoria,
        stock: u64,
    ) -> (r: Result<Publicacion, ErrorSistema>)
        requires
            old(self).wf(),
        ensures
            final(self).wf(),
            r == old(self)@.publicar(
                caller,
                nombre_producto,
                descripcion,
                precio,
                categoria,
                stock,
            ),
            final(self)@ == old(self)@.tras_publicar(
                caller,
                nombre_producto,
                descripcion,
                precio,
                categoria,
                stock,
            ),
            r is Ok ==> r.unwrap().id_publicacion == old(self)@.publicaciones.len(),
    {
        let k = match self.buscar(caller) {
            Some(k) => k,
            None => {
                return Err(ErrorSistema::UsuarioNoRegistrado);
            },
        };
        match self.usuarios[k].es_vendedor() {
            Err(e) => {
                return Err(e);
            },
            Ok(_) => {},
        }
        let n = self.publicaciones.len();
        if n >= 0xFFFF_FFFF {
            return Err(ErrorSistema::UnderflowPublicaciones);
        }
        let publicacion = Publicacion::new(
            n as u64,
            nombre_producto,
            descripcion,
            precio,
            categoria,
            stock,
            caller,
        );
        proof {
            ley_publicar_valido(
                self@,
                caller,
                nombre_producto,
                descripcion,
                precio,
                categoria,
                stock,
            );
            assert forall|t: int| 0 <= t < self.usuarios.len() implies posiciones(
                self.publicaciones@.push(publicacion),
                es_de_vendedor(#[trigger] self.usuarios@[t].account_id),
            ) == if t == k {
                self.publicaciones_mapping@[t]@.push(n as u32)
            } else {
                self.publicaciones_mapping@[t]@
            } by {
                lemma_posiciones_push(
                    self.publicaciones@,
                    es_de_vendedor(self.usuarios@[t].account_id),
                    publicacion,
                );
            }
        }
        let mut ids = self.publicaciones_mapping[k].clone();
        ids.push(n as u32);
        assert(ids@ =~= self.publicaciones_mapping@[k as int]@.push(n as u32));
        self.publicaciones.push(publicacion.clone());
        self.publicaciones_mapping[k] = ids;
        Ok(publicacion)
    }

    /// The caller's own listings, oldest first: the listings of the catalog
    /// whose seller is the caller, as they stand now. For registered sellers
    /// only.
    pub fn get_publicaciones_vendedor(&self, caller: AccountId) -> (r: Result<
        Vec<Publicacion>,
        ErrorSistema,
    >)
        requires
            self.wf(),
        ensures
            match r {
                Ok(v) => self@.get_publicaciones_vendedor(caller) == Ok::<
                    Seq<Publicacion>,
                    ErrorSistema,
                >(v@),
                Err(e) => self@.get_publicaciones_vendedor(caller) == Err::<
                    Seq<Publicacion>,
                    ErrorSistema,
                >(e),
            },
    {
        let k = match self.buscar(caller) {
            Some(k) => k,
            None => {
                return Err(ErrorSistema::UsuarioNoRegistrado);
            },
        };
        match self.usuarios[k].es_vendedor() {
            Err(e) => {
                return Err(e);
            },
            Ok(_) => {},
        }
        let ids = &self.publicaciones_mapping[k];
        proof {
            lemma_posiciones_resuelven(self.publicaciones@, es_de_vendedor(caller));
            lemma_posiciones_filtran(self.publicaciones@, es_de_vendedor(caller));
        }
        let mut propias: Vec<Publicacion> = Vec::new();
        let mut j: usize = 0;
        while j < ids.len()
            invariant
                j <= ids.len(),
                propias.len() == j,
                forall|t: int|
                    0 <= t < ids.len() ==> (#[trigger] ids@[t]) < self.publicaciones.len(),
                forall|t: int|
                    0 <= t < j ==> (#[trigger] propias@[t]) == self.publicaciones@[ids@[t] as int],
            decreases ids.len() - j,
        {
            let i = ids[j] as usize;
            propias.push(self.publicaciones[i].clone());
            j += 1;
        }
        assert(propias@ =~= self.publicaciones@.filter(es_de_vendedor(caller)));
        Ok(propias)
    }

    /// The whole catalog, oldest listing first. Any registered party may read
    /// it.
    pub fn get_publicaciones(&self, caller: AccountId) -> (r: Result<
        Vec<Publicacion>,
        ErrorSistema,
    >)
        requires
            self.wf(),
        ensures
            match r {
                Ok(v) => self@.get_publicaciones(caller) == Ok::<Seq<Publicacion>, ErrorSistema>(
                    v@,
                ),
                Err(e) => self@.get_publicaciones(caller) == Err::<Seq<Publicacion>, ErrorSistema>(
                    e,
                ),
            },
    {
        if self.buscar(caller).is_none() {
            return Err(ErrorSistema::UsuarioNoRegistrado);
        }
        let todas = self.publicaciones.clone();
        assert(todas@ =~= self.publicaciones@);
        Ok(todas)
    }

    /// Places an order of the caller against the listing at position
    /// `idx_publicacion`. Every condition is decided before the first write:
    /// the caller must be a registered buyer, the listing must exist and have
    /// stock, and the order ledger must have room (it holds at most `u32::MAX`
    /// orders). Then the listing's stock goes down by exactly one, and a
    /// pending order that carries a copy of the listing as it stands after
    /// that is appended to the orders and to the caller's own index. A refused
    /// order changes nothing.
    pub fn ordenar_compra(&mut self, caller: AccountId, idx_publicacion: u32) -> (r: Result<
        OrdenCompra,
        ErrorSistema,
    >)
        requires
            old(self).wf(),
        ensures
            final(self).wf(),
            r == old(self)@.ordenar_compra(caller, idx_publicacion),
            final(self)@ == old(self)@.tras_ordenar_compra(caller, idx_publicacion),
    {
        let k = match self.buscar(caller) {
            Some(k) => k,
            None => {
                return Err(ErrorSistema::UsuarioNoRegistrado);
            },
        };
        match self.usuarios[k].es_comprador() {
            Err(e) => {
                return Err(e);
            },
            Ok(_) => {},
        }
        let i = idx_publicacion as usize;
        if i >= self.publicaciones.len() {
            return Err(ErrorSistema::PublicacionNoExistente);
        }
        let mut publicacion = self.publicaciones[i].clone();
        if publicacion.stock == 0 {
            return Err(ErrorSistema::PublicacionSinStock);
        }
        let n = self.ordenes_compra.len();
        if n >= 0xFFFF_FFFF {
            return Err(ErrorSistema::UnderflowOrdenes);
        }
        publicacion.stock = publicacion.stock - 1;
        let orden_compra = OrdenCompra {
            estado: Estado::Pendiente,
            publicacion: publicacion.clone(),
            comprador_id: caller,
            peticion_cancelacion: false,
        };
        proof {
            ley_ordenar_compra_valido(self@, caller, idx_publicacion);
            assert forall|t: int| 0 <= t < self.usuarios.len() implies posiciones(
                self.ordenes_compra@.push(orden_compra),
                es_de_comprador(#[trigger] self.usuarios@[t].account_id),
            ) == if t == k {
                self.ordenes_compra_mapping@[t]@.push(n as u32)
            } else {
                self.ordenes_compra_mapping@[t]@
            } by {
                lemma_posiciones_push(
                    self.ordenes_compra@,
                    es_de_comprador(self.usuarios@[t].account_id),
                    orden_compra,
                );
            }
            assert forall|t: int| 0 <= t < self.usuarios.len() implies posiciones(
                self.publicaciones@.update(i as int, publicacion),
                es_de_vendedor(#[trigger] self.usuarios@[t].account_id),
            ) == self.publicaciones_mapping@[t]@ by {
                lemma_posiciones_iguales(
                    self.publicaciones@.update(i as int, publicacion),
                    self.publicaciones@,
                    es_de_vendedor(self.usuarios@[t].account_id),
                );
            }
        }
        let mut ids = self.ordenes_compra_mapping[k].clone();
        ids.push(n as u32);
        assert(ids@ =~= self.ordenes_compra_mapping@[k as int]@.push(n as u32));
        self.publicaciones[i] = publicacion;
        self.ordenes_compra.push(orden_compra.clone());
        self.ordenes_compra_mapping[k] = ids;
        Ok(orden_compra)
    }

    /// The caller's own orders, oldest first: the orders of the ledger whose
    /// buyer is the caller. For registered buyers only.
    pub fn get_ordenes_comprador(&self, caller: AccountId) -> (r: Result<
        Vec<OrdenCompra>,
        ErrorSistema,
    >)
        requires
            self.wf(),
        ensures
            match r {
                Ok(v) => self@.get_ordenes_comprador(caller) == Ok::<
                    Seq<OrdenCompra>,
                    ErrorSistema,
                >(v@),
                Err(e) => self@.get_ordenes_comprador(caller) == Err::<
                    Seq<OrdenCompra>,
                    ErrorSistema,
                >(e),
            },
    {
        let k = match self.buscar(caller) {
            Some(k) => k,
            None => {
                return Err(ErrorSistema::UsuarioNoRegistrado);
            },
        };
        match self.usuarios[k].es_comprador() {
            Err(e) => {
                return Err(e);
            },
            Ok(_) => {},
        }
        let ids = &self.ordenes_compra_mapping[k];
        proof {
            lemma_posiciones_resuelven(self.ordenes_compra@, es_de_comprador(caller));
            lemma_posiciones_filtran(self.ordenes_compra@, es_de_comprador(caller));
        }
        let mut propias: Vec<OrdenCompra> = Vec::new();
        let mut j: usize = 0;
        while j < ids.len()
            invariant
                j <= ids.len(),
                propias.len() == j,
                forall|t: int|
                    0 <= t < ids.len() ==> (#[trigger] ids@[t]) < self.ordenes_compra.len(),
                forall|t: int|
                    0 <= t < j ==> (#[trigger] propias@[t]) == self.ordenes_compra@[ids@[t] as int],
            decreases ids.len() - j,
        {
            let i = ids[j] as usize;
            propias.push(self.ordenes_compra[i].clone());
            j += 1;
        }
        assert(propias@ =~= self.ordenes_compra@.filter(es_de_comprador(caller)));
        Ok(propias)
    }

    /// All the orders, oldest first. Any registered party may read them.
    pub fn get_ordenes(&self, caller: AccountId) -> (r: Result<Vec<OrdenCompra>, ErrorSistema>)
        requires
            self.wf(),
        ensures
            match r {
                Ok(v) => self@.get_ordenes(caller) == Ok::<Seq<OrdenCompra>, ErrorSistema>(v@),
                Err(e) => self@.get_ordenes(caller) == Err::<Seq<OrdenCompra>, ErrorSistema>(e),
            },
    {
        if self.buscar(caller).is_none() {
            return Err(ErrorSistema::UsuarioNoRegistrado);
        }
        let todas = self.ordenes_compra.clone();
        assert(todas@ =~= self.ordenes_compra@);
        Ok(todas)
    }
}

} // verus!

//! The abstract state of the ledger and what each operation does to it.
//!
//! [`Libro`] is the mathematical model: the registry as a map, the catalog and
//! the orders as sequences. For each operation of the ledger one spec function
//! gives its answer and, where it writes, a second one gives the state after
//! it. The executable ledger is specified against these.

use crate::cuenta::AccountId;
use crate::tipos::{Categoria, ErrorSistema, Estado, OrdenCompra, Publicacion, Rol, Usuario};
use vstd::prelude::*;

verus! {

/// The listings of seller `id`.
pub open spec fn es_de_vendedor(id: AccountId) -> spec_fn(Publicacion) -> bool {
    |p: Publicacion| p.vendedor_id == id
}

/// The orders of buyer `id`.
pub open spec fn es_de_comprador(id: AccountId) -> spec_fn(OrdenCompra) -> bool {
    |o: OrdenCompra| o.comprador_id == id
}

/// The ledger as a mathematical value.
pub struct Libro {
    /// The profile of each registered party.
    pub usuarios: Map<AccountId, Usuario>,
    /// The catalog, oldest listing first.
    pub publicaciones: Seq<Publicacion>,
    /// The orders, oldest first.
    pub ordenes_compra: Seq<OrdenCompra>,
}

impl Libro {
    /// The ledger with no party, no listing and no order.
    pub open spec fn vacio() -> Libro {
        Libro {
            usuarios: Map::empty(),
            publicaciones: Seq::empty(),
            ordenes_compra: Seq::empty(),
        }
    }

    /// The caller's profile, or `UsuarioNoRegistrado`.
    pub open spec fn get_usuario(self, caller: AccountId) -> Result<Usuario, ErrorSistema> {
        if self.usuarios.contains_key(caller) {
            Ok(self.usuarios[caller])
        } else {
            Err(ErrorSistema::UsuarioNoRegistrado)
        }
    }

    /// The selling gate: registration comes first, then the role.
    pub open spec fn vendedor(self, caller: AccountId) -> Result<Usuario, ErrorSistema> {
        match self.get_usuario(caller) {
            Err(e) => Err(e),
            Ok(u) => if u.rol.puede_vender() {
                Ok(u)
            } else {
                Err(ErrorSistema::UsuarioNoEsVendedor)
            },
        }
    }

    /// The buying gate: registration comes first, then the role.
    pub open spec fn comprador(self, caller: AccountId) -> Result<Usuario, ErrorSistema> {
        match self.get_usuario(caller) {
            Err(e) => Err(e),
            Ok(u) => if u.rol.puede_comprar() {
                Ok(u)
            } else {
                Err(ErrorSistema::UsuarioNoEsComprador)
            },
        }
    }

    /// The answer to a registration: the new profile, whose identity is the
    /// caller's, unless the caller already has one.
    pub open spec fn registrar_usuario(
        self,
        caller: AccountId,
        username: String,
        rol: Rol,
    ) -> Result<Usuario, ErrorSistema> {
        if self.usuarios.contains_key(caller) {
            Err(ErrorSistema::UsuarioYaRegistrado)
        } else {
            Ok(Usuario { username, rol, account_id: caller })
        }
    }

    /// The ledger after a registration: the new profile is stored under the
    /// caller's identity; a refused registration changes nothing.
    pub open spec fn tras_registrar_usuario(
        self,
        caller: AccountId,
        username: String,
        rol: Rol,
    ) -> Libro {
        match self.registrar_usuario(caller, username, rol) {
            Ok(u) => Libro { usuarios: self.usuarios.insert(caller, u), ..self },
            Err(_) => self,
        }
    }

    /// The answer to a publication: the new listing, whose id is the length of
    /// the catalog and whose seller is the caller. It is refused to a caller
    /// who is not a registered seller, and when the catalog is full.
    pub open spec fn publicar(
        self,
        caller: AccountId,
        nombre_producto: String,
        descripcion: String,
        precio: u64,
        categoria: Categoria,
        stock: u64,
    ) -> Result<Publicacion, ErrorSistema> {
        match self.vendedor(caller) {
            Err(e) => Err(e),
            Ok(_) => if self.publicaciones.len() >= u32::MAX {
                Err(ErrorSistema::UnderflowPublicaciones)
            } else {
                Ok(
                    Publicacion {
                        id_publicacion: self.publicaciones.len() as u64,
                        nombre_producto,
                        descripcion,
                        precio,
                        categoria,
                        stock,
                        vendedor_id: caller,
                    },
                )
            },
        }
    }

    /// The ledger after a publication: the new listing stands at the end of
    /// the catalog; a refused publication changes nothing.
    pub open spec fn tras_publicar(
        self,
        caller: AccountId,
        nombre_producto: String,
        descripcion: String,
        precio: u64,
        categoria: Categoria,
        stock: u64,
    ) -> Libro {
        match self.publicar(caller, nombre_producto, descripcion, precio, categoria, stock) {
            Ok(p) => Libro { publicaciones: self.publicaciones.push(p), ..self },
            Err(_) => self,
        }
    }

    /// The answer to an order: a pending order of the caller that carries the
    /// listing with one unit less in stock. The refusals come in this order:
    /// registration, role, the listing's existence, its stock, the room left
    /// in the order ledger.
    pub open spec fn ordenar_compra(self, caller: AccountId, idx_publicacion: u32) -> Result<
        OrdenCompra,
        ErrorSistema,
    > {
        match self.comprador(caller) {
            Err(e) => Err(e),
            Ok(_) => if idx_publicacion >= self.publicaciones.len() {
                Err(ErrorSistema::PublicacionNoExistente)
            } else if self.publicaciones[idx_publicacion as int].stock == 0 {
                Err(ErrorSistema::PublicacionSinStock)
            } else if self.ordenes_compra.len() >= u32::MAX {
                Err(ErrorSistema::UnderflowOrdenes)
            } else {
                Ok(
                    OrdenCompra {
                        estado: Estado::Pendiente,
                        publicacion: Publicacion {
                            stock: (self.publicaciones[idx_publicacion as int].stock - 1) as u64,
                            ..self.publicaciones[idx_publicacion as int]
                        },
                        comprador_id: caller,
                        peticion_cancelacion: false,
                    },
                )
            },
        }
    }

    /// The ledger after an order: the listing is replaced, at its position, by
    /// the one that the order carries, and the order stands at the end of the
    /// orders; a refused order changes nothing.
    pub open spec fn tras_ordenar_compra(self, caller: AccountId, idx_publicacion: u32) -> Libro {
        match self.ordenar_compra(caller, idx_publicacion) {
            Ok(o) => Libro {
                publicaciones: self.publicaciones.update(idx_publicacion as int, o.publicacion),
                ordenes_compra: self.ordenes_compra.push(o),
                ..self
            },
            Err(_) => self,
        }
    }

    /// The caller's own listings, in the order of the catalog; for registered
    /// sellers only.
    pub open spec fn get_publicaciones_vendedor(self, caller: AccountId) -> Result<
        Seq<Publicacion>,
        ErrorSistema,
    > {
        match self.vendedor(caller) {
            Err(e) => Err(e),
            Ok(_) => Ok(self.publicaciones.filter(es_de_vendedor(caller))),
        }
    }

    /// The whole catalog; for any registered party.
    pub open spec fn get_publicaciones(self, caller: AccountId) -> Result<
        Seq<Publicacion>,
        ErrorSistema,
    > {
        match self.get_usuario(caller) {
            Err(e) => Err(e),
            Ok(_) => Ok(self.publicaciones),
        }
    }

    /// The caller's own orders, oldest first; for registered buyers only.
    pub open spec fn get_ordenes_comprador(self, caller: AccountId) -> Result<
        Seq<OrdenCompra>,
        ErrorSistema,
    > {
        match self.comprador(caller) {
            Err(e) => Err(e),
            Ok(_) => Ok(self.ordenes_compra.filter(es_de_comprador(caller))),
        }
    }

    /// All the orders; for any registered party.
    pub open spec fn get_ordenes(self, caller: AccountId) -> Result<
        Seq<OrdenCompra>,
        ErrorSistema,
    > {
        match self.get_usuario(caller) {
            Err(e) => Err(e),
            Ok(_) => Ok(self.ordenes_compra),
        }
    }

    /// What holds of an order in a valid ledger: it is pending, its buyer is a
    /// registered buyer, and it carries a listing of the catalog as it once
    /// stood, that is with at least the stock that the listing has now.
    pub open spec fn orden_valida(self, o: OrdenCompra) -> bool {
        &&& o.estado == Estado::Pendiente
        &&& !o.peticion_cancelacion
        &&& self.usuarios.contains_key(o.comprador_id)
        &&& self.usuarios[o.comprador_id].rol.puede_comprar()
        &&& o.publicacion.id_publicacion < self.publicaciones.len()
        &&& o.publicacion == (Publicacion {
            stock: o.publicacion.stock,
            ..self.publicaciones[o.publicacion.id_publicacion as int]
        })
        &&& o.publicacion.stock >= self.publicaciones[o.publicacion.id_publicacion as int].stock
    }

    /// What holds of a listing in a valid ledger: its id is its position, and
    /// its seller is a registered seller.
    pub open spec fn publicacion_valida(self, i: int) -> bool {
        &&& self.publicaciones[i].id_publicacion == i
        &&& self.usuarios.contains_key(self.publicaciones[i].vendedor_id)
        &&& self.usuarios[self.publicaciones[i].vendedor_id].rol.puede_vender()
    }

    /// The invariant of the ledger: every state that the operations reach from
    /// the empty ledger satisfies it.
    pub open spec fn valido(self) -> bool {
        &&& self.publicaciones.len() <= u32::MAX
        &&& self.ordenes_compra.len() <= u32::MAX
        &&& forall|id: AccountId| #[trigger]
            self.usuarios.contains_key(id) ==> self.usuarios[id].account_id == id
        &&& forall|i: int|
            0 <= i < self.publicaciones.len() ==> #[trigger] self.publicacion_valida(i)
        &&& forall|j: int|
            0 <= j < self.ordenes_compra.len() ==> self.orden_valida(
                #[trigger] self.ordenes_compra[j],
            )
    }
}

} // verus!

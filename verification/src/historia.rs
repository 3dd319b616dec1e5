//! Histories: sequences of calls, and the state that a ledger reaches through
//! them. They exist to state the laws that speak of more than one call.

use crate::cuenta::AccountId;
use crate::libro::Libro;
use crate::tipos::{Categoria, Rol};
use vstd::prelude::*;

verus! {

/// One call of a writing operation, with its caller and arguments.
pub enum Llamada {
    Registrar { caller: AccountId, username: String, rol: Rol },
    Publicar {
        caller: AccountId,
        nombre_producto: String,
        descripcion: String,
        precio: u64,
        categoria: Categoria,
        stock: u64,
    },
    Ordenar { caller: AccountId, idx_publicacion: u32 },
}

impl Libro {
    /// Whether the ledger accepts the call.
    pub open spec fn acepta(self, llamada: Llamada) -> bool {
        match llamada {
            Llamada::Registrar { caller, username, rol } => self.registrar_usuario(
                caller,
                username,
                rol,
            ) is Ok,
            Llamada::Publicar {
                caller,
                nombre_producto,
                descripcion,
                precio,
                categoria,
                stock,
            } => self.publicar(
                caller,
                nombre_producto,
                descripcion,
                precio,
                categoria,
                stock,
            ) is Ok,
            Llamada::Ordenar { caller, idx_publicacion } => self.ordenar_compra(
                caller,
                idx_publicacion,
            ) is Ok,
        }
    }

    /// The ledger after the call.
    pub open spec fn tras(self, llamada: Llamada) -> Libro {
        match llamada {
            Llamada::Registrar { caller, username, rol } => self.tras_registrar_usuario(
                caller,
                username,
                rol,
            ),
            Llamada::Publicar {
                caller,
                nombre_producto,
                descripcion,
                precio,
                categoria,
                stock,
            } => self.tras_publicar(
                caller,
                nombre_producto,
                descripcion,
                precio,
                categoria,
                stock,
            ),
            Llamada::Ordenar { caller, idx_publicacion } => self.tras_ordenar_compra(
                caller,
                idx_publicacion,
            ),
        }
    }

    /// The ledger after the calls of `historia`, made one after the other.
    pub open spec fn tras_todas(self, historia: Seq<Llamada>) -> Libro
        decreases historia.len(),
    {
        if historia.len() == 0 {
            self
        } else {
            self.tras_todas(historia.drop_last()).tras(historia.last())
        }
    }

    /// How many calls of `historia` are accepted orders against the listing at
    /// position `idx`.
    pub open spec fn ordenes_aceptadas(self, historia: Seq<Llamada>, idx: u32) -> nat
        decreases historia.len(),
    {
        if historia.len() == 0 {
            0
        } else {
            let antes = self.tras_todas(historia.drop_last());
            let cuenta = self.ordenes_aceptadas(historia.drop_last(), idx);
            match historia.last() {
                Llamada::Ordenar { caller, idx_publicacion } => if idx_publicacion == idx
                    && antes.acepta(historia.last()) {
                    cuenta + 1
                } else {
                    cuenta
                },
                _ => cuenta,
            }
        }
    }

    /// How many calls of `historia` are accepted publications of `vendedor`.
    pub open spec fn publicaciones_aceptadas(
        self,
        historia: Seq<Llamada>,
        vendedor: AccountId,
    ) -> nat
        decreases historia.len(),
    {
        if historia.len() == 0 {
            0
        } else {
            let antes = self.tras_todas(historia.drop_last());
            let cuenta = self.publicaciones_aceptadas(historia.drop_last(), vendedor);
            match historia.last() {
                Llamada::Publicar { caller, .. } => if caller == vendedor && antes.acepta(
                    historia.last(),
                ) {
                    cuenta + 1
                } else {
                    cuenta
                },
                _ => cuenta,
            }
        }
    }

    /// How many calls of `historia` are accepted orders of `comprador`.
    pub open spec fn compras_aceptadas(self, historia: Seq<Llamada>, comprador: AccountId) -> nat
        decreases historia.len(),
    {
        if historia.len() == 0 {
            0
        } else {
            let antes = self.tras_todas(historia.drop_last());
            let cuenta = self.compras_aceptadas(historia.drop_last(), comprador);
            match historia.last() {
                Llamada::Ordenar { caller, .. } => if caller == comprador && antes.acepta(
                    historia.last(),
                ) {
                    cuenta + 1
                } else {
                    cuenta
                },
                _ => cuenta,
            }
        }
    }
}

} // verus!

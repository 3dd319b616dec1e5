//! Laws of the ledger, stated over the abstract state and proved once for all
//! inputs.

use crate::cuenta::AccountId;
use crate::historia::Llamada;
use crate::indice::{
    lemma_filter_push, lemma_posiciones_completas, lemma_posiciones_filtran,
    lemma_posiciones_iguales, lemma_posiciones_resuelven, lemma_posiciones_vacias, posiciones,
};
use crate::libro::{es_de_comprador, es_de_vendedor, Libro};
use crate::tipos::{Categoria, ErrorSistema, Estado, OrdenCompra, Publicacion, Rol, Usuario};
use vstd::prelude::*;

verus! {

/// The empty ledger is valid.
pub proof fn ley_vacio_valido()
    ensures
        Libro::vacio().valido(),
{
}

/// A registration, accepted or refused, leaves a valid ledger valid.
pub proof fn ley_registrar_usuario_valido(
    s: Libro,
    caller: AccountId,
    username: String,
    rol: Rol,
)
    requires
        s.valido(),
    ensures
        s.tras_registrar_usuario(caller, username, rol).valido(),
{
    let t = s.tras_registrar_usuario(caller, username, rol);
    assert forall|i: int| 0 <= i < t.publicaciones.len() implies #[trigger] t.publicacion_valida(
        i,
    ) by {
        assert(s.publicacion_valida(i));
    }
    assert forall|j: int| 0 <= j < t.ordenes_compra.len() implies t.orden_valida(
        #[trigger] t.ordenes_compra[j],
    ) by {
        assert(s.orden_valida(s.ordenes_compra[j]));
    }
}

/// A publication, accepted or refused, leaves a valid ledger valid.
pub proof fn ley_publicar_valido(
    s: Libro,
    caller: AccountId,
    nombre_producto: String,
    descripcion: String,
    precio: u64,
    categoria: Categoria,
    stock: u64,
)
    requires
        s.valido(),
    ensures
        s.tras_publicar(caller, nombre_producto, descripcion, precio, categoria, stock).valido(),
{
    let t = s.tras_publicar(caller, nombre_producto, descripcion, precio, categoria, stock);
    assert forall|i: int| 0 <= i < t.publicaciones.len() implies #[trigger] t.publicacion_valida(
        i,
    ) by {
        if i < s.publicaciones.len() {
            assert(s.publicacion_valida(i));
        }
    }
    assert forall|j: int| 0 <= j < t.ordenes_compra.len() implies t.orden_valida(
        #[trigger] t.ordenes_compra[j],
    ) by {
        assert(s.orden_valida(s.ordenes_compra[j]));
    }
}

/// An order, accepted or refused, leaves a valid ledger valid.
pub proof fn ley_ordenar_compra_valido(s: Libro, caller: AccountId, idx_publicacion: u32)
    requires
        s.valido(),
    ensures
        s.tras_ordenar_compra(caller, idx_publicacion).valido(),
{
    let t = s.tras_ordenar_compra(caller, idx_publicacion);
    assert forall|i: int| 0 <= i < t.publicaciones.len() implies #[trigger] t.publicacion_valida(
        i,
    ) by {
        assert(s.publicacion_valida(i));
    }
    assert forall|j: int| 0 <= j < t.ordenes_compra.len() implies t.orden_valida(
        #[trigger] t.ordenes_compra[j],
    ) by {
        if j < s.ordenes_compra.len() {
            assert(s.orden_valida(s.ordenes_compra[j]));
        } else {
            assert(s.publicacion_valida(idx_publicacion as int));
        }
    }
}

/// A party without a profile owns no record: no listing is its own and no
/// order, so both of its indices are empty.
pub proof fn ley_sin_perfil_sin_registros(s: Libro, id: AccountId)
    requires
        s.valido(),
        !s.usuarios.contains_key(id),
    ensures
        forall|i: int|
            0 <= i < s.publicaciones.len() ==> (#[trigger] s.publicaciones[i]).vendedor_id != id,
        forall|j: int|
            0 <= j < s.ordenes_compra.len() ==> (#[trigger] s.ordenes_compra[j]).comprador_id
                != id,
        posiciones(s.publicaciones, es_de_vendedor(id)) == Seq::<u32>::empty(),
        posiciones(s.ordenes_compra, es_de_comprador(id)) == Seq::<u32>::empty(),
{
    assert forall|i: int| 0 <= i < s.publicaciones.len() implies !es_de_vendedor(id)(
        #[trigger] s.publicaciones[i],
    ) by {
        assert(s.publicacion_valida(i));
    }
    lemma_posiciones_vacias(s.publicaciones, es_de_vendedor(id));
    assert forall|j: int| 0 <= j < s.ordenes_compra.len() implies !es_de_comprador(id)(
        #[trigger] s.ordenes_compra[j],
    ) by {
        assert(s.orden_valida(s.ordenes_compra[j]));
    }
    lemma_posiciones_vacias(s.ordenes_compra, es_de_comprador(id));
}

/// Any call leaves a valid ledger valid.
pub proof fn ley_llamada_valida(s: Libro, llamada: Llamada)
    requires
        s.valido(),
    ensures
        s.tras(llamada).valido(),
{
    match llamada {
        Llamada::Registrar { caller, username, rol } => {
            ley_registrar_usuario_valido(s, caller, username, rol);
        },
        Llamada::Publicar { caller, nombre_producto, descripcion, precio, categoria, stock } => {
            ley_publicar_valido(s, caller, nombre_producto, descripcion, precio, categoria, stock);
        },
        Llamada::Ordenar { caller, idx_publicacion } => {
            ley_ordenar_compra_valido(s, caller, idx_publicacion);
        },
    }
}

/// Every ledger reached from a valid one is valid. So in every state reached
/// from the empty ledger the id of each listing is its position in the
/// catalog, each seller and buyer on record is registered with that role, and
/// each order carries a listing of the catalog with no less stock than the
/// listing has now.
pub proof fn ley_historia_valida(s: Libro, historia: Seq<Llamada>)
    requires
        s.valido(),
    ensures
        s.tras_todas(historia).valido(),
    decreases historia.len(),
{
    if historia.len() > 0 {
        ley_historia_valida(s, historia.drop_last());
        ley_llamada_valida(s.tras_todas(historia.drop_last()), historia.last());
    }
}

/// A refused call changes nothing.
pub proof fn ley_rechazo_sin_efecto(s: Libro, llamada: Llamada)
    requires
        !s.acepta(llamada),
    ensures
        s.tras(llamada) == s,
{
}

/// Registration is unique: whatever the ledger, once a party has asked for a
/// registration, a second one is refused with `UsuarioYaRegistrado` and
/// changes nothing. The first one succeeds exactly when the party had no
/// profile, and the profile then on record is the one it returned.
pub proof fn ley_registro_unico(
    s: Libro,
    caller: AccountId,
    username: String,
    rol: Rol,
    otro_username: String,
    otro_rol: Rol,
)
    ensures
        s.registrar_usuario(caller, username, rol) is Ok <==> !s.usuarios.contains_key(caller),
        s.tras_registrar_usuario(caller, username, rol).registrar_usuario(
            caller,
            otro_username,
            otro_rol,
        ) == Err::<Usuario, ErrorSistema>(ErrorSistema::UsuarioYaRegistrado),
        s.tras_registrar_usuario(caller, username, rol).tras_registrar_usuario(
            caller,
            otro_username,
            otro_rol,
        ) == s.tras_registrar_usuario(caller, username, rol),
        !s.usuarios.contains_key(caller) ==> s.tras_registrar_usuario(
            caller,
            username,
            rol,
        ).get_usuario(caller) == s.registrar_usuario(caller, username, rol),
{
}

/// A profile never changes: no call removes or alters the profile of a
/// registered party.
pub proof fn ley_perfil_inmutable(s: Libro, historia: Seq<Llamada>, id: AccountId)
    requires
        s.usuarios.contains_key(id),
    ensures
        s.tras_todas(historia).usuarios.contains_key(id),
        s.tras_todas(historia).usuarios[id] == s.usuarios[id],
    decreases historia.len(),
{
    if historia.len() > 0 {
        ley_perfil_inmutable(s, historia.drop_last(), id);
    }
}

/// A party with role `Comprador` cannot publish: the call is refused with
/// `UsuarioNoEsVendedor` and changes nothing.
pub proof fn ley_comprador_no_publica(
    s: Libro,
    caller: AccountId,
    nombre_producto: String,
    descripcion: String,
    precio: u64,
    categoria: Categoria,
    stock: u64,
)
    requires
        s.usuarios.contains_key(caller),
        s.usuarios[caller].rol == Rol::Comprador,
    ensures
        s.publicar(caller, nombre_producto, descripcion, precio, categoria, stock) == Err::<
            Publicacion,
            ErrorSistema,
        >(ErrorSistema::UsuarioNoEsVendedor),
        s.tras_publicar(caller, nombre_producto, descripcion, precio, categoria, stock) == s,
        s.get_publicaciones_vendedor(caller) == Err::<Seq<Publicacion>, ErrorSistema>(
            ErrorSistema::UsuarioNoEsVendedor,
        ),
{
}

/// A party with role `Vendedor` cannot order: the call is refused with
/// `UsuarioNoEsComprador` and changes nothing.
pub proof fn ley_vendedor_no_ordena(s: Libro, caller: AccountId, idx_publicacion: u32)
    requires
        s.usuarios.contains_key(caller),
        s.usuarios[caller].rol == Rol::Vendedor,
    ensures
        s.ordenar_compra(caller, idx_publicacion) == Err::<OrdenCompra, ErrorSistema>(
            ErrorSistema::UsuarioNoEsComprador,
        ),
        s.tras_ordenar_compra(caller, idx_publicacion) == s,
        s.get_ordenes_comprador(caller) == Err::<Seq<OrdenCompra>, ErrorSistema>(
            ErrorSistema::UsuarioNoEsComprador,
        ),
{
}

/// A party with role `Ambos` passes both gates: its publication is accepted
/// whenever the catalog has room, and its order whenever the listing exists
/// and has stock and the order ledger has room.
pub proof fn ley_ambos_pasa(
    s: Libro,
    caller: AccountId,
    nombre_producto: String,
    descripcion: String,
    precio: u64,
    categoria: Categoria,
    stock: u64,
    idx_publicacion: u32,
)
    requires
        s.usuarios.contains_key(caller),
        s.usuarios[caller].rol == Rol::Ambos,
    ensures
        s.vendedor(caller) == Ok::<Usuario, ErrorSistema>(s.usuarios[caller]),
        s.comprador(caller) == Ok::<Usuario, ErrorSistema>(s.usuarios[caller]),
        s.publicar(caller, nombre_producto, descripcion, precio, categoria, stock) is Ok
            <==> s.publicaciones.len() < u32::MAX,
        s.ordenar_compra(caller, idx_publicacion) is Ok <==> {
            &&& idx_publicacion < s.publicaciones.len()
            &&& s.publicaciones[idx_publicacion as int].stock > 0
            &&& s.ordenes_compra.len() < u32::MAX
        },
        s.get_publicaciones_vendedor(caller) is Ok,
        s.get_ordenes_comprador(caller) is Ok,
{
}

/// The id of a listing is its position: an accepted publication returns a
/// listing whose id is the length of the catalog before the call, and puts it
/// at that position, behind the listings that were there, which stay as they
/// were.
pub proof fn ley_id_es_posicion(
    s: Libro,
    caller: AccountId,
    nombre_producto: String,
    descripcion: String,
    precio: u64,
    categoria: Categoria,
    stock: u64,
)
    requires
        s.publicar(caller, nombre_producto, descripcion, precio, categoria, stock) is Ok,
    ensures
        ({
            let p = s.publicar(
                caller,
                nombre_producto,
                descripcion,
                precio,
                categoria,
                stock,
            ).unwrap();
            let t = s.tras_publicar(caller, nombre_producto, descripcion, precio, categoria, stock);
            &&& p.id_publicacion == s.publicaciones.len()
            &&& t.publicaciones.len() == s.publicaciones.len() + 1
            &&& t.publicaciones[p.id_publicacion as int] == p
            &&& t.publicaciones.subrange(0, s.publicaciones.len() as int) == s.publicaciones
        }),
{
    let t = s.tras_publicar(caller, nombre_producto, descripcion, precio, categoria, stock);
    assert(t.publicaciones.subrange(0, s.publicaciones.len() as int) =~= s.publicaciones);
}

/// An accepted order takes exactly one unit from the listing and from no
/// other, and carries the listing as it stands after that: the order is
/// pending, it is the caller's, and it is the newest of the orders.
pub proof fn ley_orden_aceptada(s: Libro, caller: AccountId, idx_publicacion: u32)
    requires
        s.ordenar_compra(caller, idx_publicacion) is Ok,
    ensures
        ({
            let o = s.ordenar_compra(caller, idx_publicacion).unwrap();
            let t = s.tras_ordenar_compra(caller, idx_publicacion);
            let i = idx_publicacion as int;
            &&& o.estado == Estado::Pendiente
            &&& o.comprador_id == caller
            &&& !o.peticion_cancelacion
            &&& o.publicacion.stock == s.publicaciones[i].stock - 1
            &&& o.publicacion == (Publicacion { stock: o.publicacion.stock, ..s.publicaciones[i] })
            &&& t.publicaciones.len() == s.publicaciones.len()
            &&& t.publicaciones[i] == o.publicacion
            &&& forall|j: int|
                0 <= j < s.publicaciones.len() && j != i ==> #[trigger] t.publicaciones[j]
                    == s.publicaciones[j]
            &&& t.ordenes_compra == s.ordenes_compra.push(o)
            &&& t.usuarios == s.usuarios
        }),
{
}

/// The refusals that each operation can give, and no others: a registration
/// only `UsuarioYaRegistrado`; a publication `UsuarioNoRegistrado`,
/// `UsuarioNoEsVendedor` or `UnderflowPublicaciones`; an order
/// `UsuarioNoRegistrado`, `UsuarioNoEsComprador`, `PublicacionNoExistente`,
/// `PublicacionSinStock` or `UnderflowOrdenes`; a reading
/// `UsuarioNoRegistrado` or the refusal of its gate.
pub proof fn ley_rechazos(
    s: Libro,
    caller: AccountId,
    username: String,
    rol: Rol,
    nombre_producto: String,
    descripcion: String,
    precio: u64,
    categoria: Categoria,
    stock: u64,
    idx_publicacion: u32,
)
    ensures
        match s.registrar_usuario(caller, username, rol) {
            Ok(_) => true,
            Err(e) => e == ErrorSistema::UsuarioYaRegistrado,
        },
        match s.publicar(caller, nombre_producto, descripcion, precio, categoria, stock) {
            Ok(_) => true,
            Err(e) => e == ErrorSistema::UsuarioNoRegistrado || e
                == ErrorSistema::UsuarioNoEsVendedor || e == ErrorSistema::UnderflowPublicaciones,
        },
        match s.ordenar_compra(caller, idx_publicacion) {
            Ok(_) => true,
            Err(e) => e == ErrorSistema::UsuarioNoRegistrado || e
                == ErrorSistema::UsuarioNoEsComprador || e == ErrorSistema::PublicacionNoExistente
                || e == ErrorSistema::PublicacionSinStock || e == ErrorSistema::UnderflowOrdenes,
        },
        s.get_usuario(caller) is Ok || s.get_usuario(caller) == Err::<Usuario, ErrorSistema>(
            ErrorSistema::UsuarioNoRegistrado,
        ),
        s.get_publicaciones(caller) is Ok <==> s.usuarios.contains_key(caller),
        s.get_ordenes(caller) is Ok <==> s.usuarios.contains_key(caller),
        s.get_publicaciones_vendedor(caller) is Ok <==> s.vendedor(caller) is Ok,
        s.get_ordenes_comprador(caller) is Ok <==> s.comprador(caller) is Ok,
{
}

/// An order against a listing without stock is refused with
/// `PublicacionSinStock`, and the stock stays at zero.
pub proof fn ley_sin_stock(s: Libro, caller: AccountId, idx_publicacion: u32)
    requires
        s.comprador(caller) is Ok,
        idx_publicacion < s.publicaciones.len(),
        s.publicaciones[idx_publicacion as int].stock == 0,
    ensures
        s.ordenar_compra(caller, idx_publicacion) == Err::<OrdenCompra, ErrorSistema>(
            ErrorSistema::PublicacionSinStock,
        ),
        s.tras_ordenar_compra(caller, idx_publicacion) == s,
{
}

/// Stock only goes down, one unit per accepted order: after any history, the
/// stock of a listing is what it was less the number of accepted orders
/// against it. No other call touches it.
pub proof fn ley_stock(s: Libro, historia: Seq<Llamada>, idx: u32)
    requires
        idx < s.publicaciones.len(),
    ensures
        idx < s.tras_todas(historia).publicaciones.len(),
        s.tras_todas(historia).publicaciones[idx as int].stock == s.publicaciones[idx as int].stock
            - s.ordenes_aceptadas(historia, idx),
    decreases historia.len(),
{
    if historia.len() > 0 {
        ley_stock(s, historia.drop_last(), idx);
    }
}

/// The catalog and the orders only grow, and a record keeps its position. An
/// order never changes once placed; of a listing only the stock changes, and
/// it never goes up.
pub proof fn ley_solo_crecen(s: Libro, historia: Seq<Llamada>)
    ensures
        s.publicaciones.len() <= s.tras_todas(historia).publicaciones.len(),
        s.ordenes_compra.len() <= s.tras_todas(historia).ordenes_compra.len(),
        forall|i: int|
            0 <= i < s.publicaciones.len() ==> {
                &&& (#[trigger] s.tras_todas(historia).publicaciones[i]).stock
                    <= s.publicaciones[i].stock
                &&& s.tras_todas(historia).publicaciones[i] == (Publicacion {
                    stock: s.tras_todas(historia).publicaciones[i].stock,
                    ..s.publicaciones[i]
                })
            },
        forall|j: int|
            0 <= j < s.ordenes_compra.len() ==> #[trigger] s.tras_todas(historia).ordenes_compra[j]
                == s.ordenes_compra[j],
    decreases historia.len(),
{
    if historia.len() > 0 {
        ley_solo_crecen(s, historia.drop_last());
    }
}

/// One call changes a seller's own listings by at most one: an accepted
/// publication of the seller adds one, and nothing else changes their number.
pub proof fn ley_publicaciones_de_vendedor(s: Libro, llamada: Llamada, vendedor: AccountId)
    requires
        s.valido(),
    ensures
        s.tras(llamada).publicaciones.filter(es_de_vendedor(vendedor)).len()
            == s.publicaciones.filter(es_de_vendedor(vendedor)).len() + s.publicaciones_aceptadas(
            seq![llamada],
            vendedor,
        ),
        (llamada matches Llamada::Publicar { caller, .. } && caller == vendedor && s.acepta(
            llamada,
        )) ==> s.tras(llamada).publicaciones.filter(es_de_vendedor(vendedor))
            == s.publicaciones.filter(es_de_vendedor(vendedor)).push(
            s.tras(llamada).publicaciones.last(),
        ),
{
    let pred = es_de_vendedor(vendedor);
    let t = s.tras(llamada);
    assert(seq![llamada].drop_last() =~= Seq::<Llamada>::empty());
    assert(seq![llamada].last() == llamada);
    assert(s.tras_todas(Seq::<Llamada>::empty()) == s);
    assert(s.publicaciones_aceptadas(Seq::<Llamada>::empty(), vendedor) == 0);
    match llamada {
        Llamada::Registrar { .. } => {},
        Llamada::Publicar { caller, .. } => {
            if s.acepta(llamada) {
                lemma_filter_push(s.publicaciones, pred, t.publicaciones.last());
                assert(t.publicaciones =~= s.publicaciones.push(t.publicaciones.last()));
            }
        },
        Llamada::Ordenar { .. } => {
            ley_llamada_valida(s, llamada);
            if s.acepta(llamada) {
                lemma_posiciones_iguales(t.publicaciones, s.publicaciones, pred);
            }
            lemma_posiciones_filtran(t.publicaciones, pred);
            lemma_posiciones_filtran(s.publicaciones, pred);
        },
    }
}

/// The seller's index is complete: after any history, the seller's own
/// listings are the listings of the catalog whose seller it is, in the order
/// of the catalog, and there are as many more of them as the history has
/// accepted publications of that seller.
pub proof fn ley_indice_completo(s: Libro, historia: Seq<Llamada>, vendedor: AccountId)
    requires
        s.valido(),
    ensures
        s.tras_todas(historia).publicaciones.filter(es_de_vendedor(vendedor)).len()
            == s.publicaciones.filter(es_de_vendedor(vendedor)).len() + s.publicaciones_aceptadas(
            historia,
            vendedor,
        ),
    decreases historia.len(),
{
    if historia.len() > 0 {
        let antes = s.tras_todas(historia.drop_last());
        ley_indice_completo(s, historia.drop_last(), vendedor);
        ley_historia_valida(s, historia.drop_last());
        ley_publicaciones_de_vendedor(antes, historia.last(), vendedor);
        assert(seq![historia.last()].drop_last() =~= Seq::<Llamada>::empty());
        assert(seq![historia.last()].last() == historia.last());
        assert(antes.tras_todas(Seq::<Llamada>::empty()) == antes);
        assert(antes.publicaciones_aceptadas(Seq::<Llamada>::empty(), vendedor) == 0);
    }
}

/// The buyer's index is complete: after any history, the buyer's own orders
/// are the orders whose buyer it is, oldest first, and there are as many more
/// of them as the history has accepted orders of that buyer.
pub proof fn ley_ordenes_de_comprador(s: Libro, historia: Seq<Llamada>, comprador: AccountId)
    ensures
        s.tras_todas(historia).ordenes_compra.filter(es_de_comprador(comprador)).len()
            == s.ordenes_compra.filter(es_de_comprador(comprador)).len() + s.compras_aceptadas(
            historia,
            comprador,
        ),
    decreases historia.len(),
{
    if historia.len() > 0 {
        let antes = s.tras_todas(historia.drop_last());
        let t = s.tras_todas(historia);
        ley_ordenes_de_comprador(s, historia.drop_last(), comprador);
        if antes.acepta(historia.last()) && historia.last() is Ordenar {
            lemma_filter_push(
                antes.ordenes_compra,
                es_de_comprador(comprador),
                t.ordenes_compra.last(),
            );
            assert(t.ordenes_compra =~= antes.ordenes_compra.push(t.ordenes_compra.last()));
        }
    }
}

/// The seller's own listings are exactly the listings of the catalog whose
/// seller it is, in the order of the catalog: they are the listings at the
/// positions of the seller's index, which ascend, lie in the catalog, and are
/// all the positions at which a listing of that seller stands.
pub proof fn ley_publicaciones_en_orden(s: Libro, vendedor: AccountId)
    requires
        s.valido(),
    ensures
        ({
            let propias = s.publicaciones.filter(es_de_vendedor(vendedor));
            let indice = posiciones(s.publicaciones, es_de_vendedor(vendedor));
            &&& propias.len() == indice.len()
            &&& forall|j: int|
                0 <= j < indice.len() ==> {
                    &&& (#[trigger] indice[j]) < s.publicaciones.len()
                    &&& propias[j] == s.publicaciones[indice[j] as int]
                    &&& propias[j].vendedor_id == vendedor
                    &&& propias[j].id_publicacion == indice[j]
                }
            &&& forall|j: int, k: int| 0 <= j < k < indice.len() ==> indice[j] < indice[k]
            &&& forall|i: int|
                0 <= i < s.publicaciones.len() && (#[trigger] s.publicaciones[i]).vendedor_id
                    == vendedor ==> indice.contains(i as u32)
        }),
{
    let pred = es_de_vendedor(vendedor);
    let indice = posiciones(s.publicaciones, pred);
    lemma_posiciones_filtran(s.publicaciones, pred);
    lemma_posiciones_resuelven(s.publicaciones, pred);
    assert forall|j: int| 0 <= j < indice.len() implies s.publicaciones[(
    #[trigger] indice[j]) as int].id_publicacion == indice[j] by {
        assert(s.publicacion_valida(indice[j] as int));
    }
    assert forall|i: int|
        0 <= i < s.publicaciones.len() && (#[trigger] s.publicaciones[i]).vendedor_id
            == vendedor implies indice.contains(i as u32) by {
        lemma_posiciones_completas(s.publicaciones, pred, i);
    }
}

/// The buyer's own orders are exactly the orders whose buyer it is, oldest
/// first: they are the orders at the positions of the buyer's index, which
/// ascend, lie in the order ledger, and are all the positions at which an
/// order of that buyer stands.
pub proof fn ley_ordenes_en_orden(s: Libro, comprador: AccountId)
    requires
        s.valido(),
    ensures
        ({
            let propias = s.ordenes_compra.filter(es_de_comprador(comprador));
            let indice = posiciones(s.ordenes_compra, es_de_comprador(comprador));
            &&& propias.len() == indice.len()
            &&& forall|j: int|
                0 <= j < indice.len() ==> {
                    &&& (#[trigger] indice[j]) < s.ordenes_compra.len()
                    &&& propias[j] == s.ordenes_compra[indice[j] as int]
                    &&& propias[j].comprador_id == comprador
                }
            &&& forall|j: int, k: int| 0 <= j < k < indice.len() ==> indice[j] < indice[k]
            &&& forall|i: int|
                0 <= i < s.ordenes_compra.len() && (#[trigger] s.ordenes_compra[i]).comprador_id
                    == comprador ==> indice.contains(i as u32)
        }),
{
    let pred = es_de_comprador(comprador);
    let indice = posiciones(s.ordenes_compra, pred);
    lemma_posiciones_filtran(s.ordenes_compra, pred);
    lemma_posiciones_resuelven(s.ordenes_compra, pred);
    assert forall|i: int|
        0 <= i < s.ordenes_compra.len() && (#[trigger] s.ordenes_compra[i]).comprador_id
            == comprador implies indice.contains(i as u32) by {
        lemma_posiciones_completas(s.ordenes_compra, pred, i);
    }
}

} // verus!

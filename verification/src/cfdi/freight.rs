//! The freight transport complement (`cartaporte31:CartaPorte`).
use vstd::prelude::*;


verus! {

/// A yes/no attribute of the complements (`Sí` or `No`): true exactly for `Sí`; absent when the
/// attribute is.
pub fn si_no_flag(value: Option<String>) -> (r: Option<bool>)
    ensures
        match value {
            Some(v) => r == Some(v@ == "S\u{ed}"@),
            None => r is None,
        },
{
    match value {
        Some(v) => Some(crate::text::str_eq(v.as_str(), "S\u{ed}")),
        None => None,
    }
}

#[derive(Debug, Clone)]
pub struct FreightTransportComplement {
    /// XML attribute `Version`.
    pub version: String,
    /// XML attribute `IdCCP`.
    pub id_ccp: Option<String>,
    /// XML attribute `TranspInternac`.
    pub is_international: Option<bool>,
    /// XML attribute `EntradaSalidaMerc`.
    pub goods_entry_exit: Option<String>,
    /// XML attribute `PaisOrigenDestino`.
    pub origin_destination_country: Option<String>,
    /// XML attribute `ViaEntradaSalida`.
    pub entry_exit_route: Option<String>,
    /// XML attribute `TotalDistRec`.
    pub total_distance: Option<String>,
    /// XML attribute `RegistroISTMO`.
    pub istmo_registration: Option<String>,
    /// XML attribute `UbicacionPoloOrigen`.
    pub pole_origin_location: Option<String>,
    /// XML attribute `UbicacionPoloDestino`.
    pub pole_destination_location: Option<String>,
    /// XML element `RegimenesAduaneros`.
    pub customs_regimes: Option<CustomsRegimes>,
    /// XML element `Ubicaciones`.
    pub locations: Locations,
    /// XML element `Mercancias`.
    pub goods: Goods,
    /// XML element `FiguraTransporte`.
    pub transport_figures: Option<TransportFigures>,
    /// XML element `Autotransporte`.
    pub road_transport: Option<RoadTransport>,
    /// XML element `TransporteMaritimo`.
    pub maritime_transport: Option<MaritimeTransportShell>,
    /// XML element `TransporteAereo`.
    pub air_transport: Option<AirTransportShell>,
    /// XML element `TransporteFerroviario`.
    pub rail_transport: Option<RailTransportShell>,
}

#[derive(Debug, Clone)]
pub struct CustomsRegimes {
    /// XML element `RegimenAduaneroCCP`.
    pub items: Vec<CustomsRegime>,
}

#[derive(Debug, Clone)]
pub struct CustomsRegime {
    /// XML attribute `RegimenAduanero`.
    pub regime: String,
}

#[derive(Debug, Clone)]
pub struct Locations {
    /// XML element `Ubicacion`.
    pub items: Vec<Location>,
}

#[derive(Debug, Clone)]
pub struct Location {
    /// XML attribute `TipoUbicacion`.
    pub location_type: String,
    /// XML attribute `IDUbicacion`.
    pub location_id: Option<String>,
    /// XML attribute `RFCRemitenteDestinatario`.
    pub shipper_consignee_tax_id: String,
    /// XML attribute `NombreRemitenteDestinatario`.
    pub shipper_consignee_name: Option<String>,
    /// XML attribute `NumRegIdTrib`.
    pub foreign_tax_id: Option<String>,
    /// XML attribute `ResidenciaFiscal`.
    pub tax_residence: Option<String>,
    /// XML attribute `NumEstacion`.
    pub station_number: Option<String>,
    /// XML attribute `NombreEstacion`.
    pub station_name: Option<String>,
    /// XML attribute `NavegacionTrafico`.
    pub navigation_traffic: Option<String>,
    /// XML attribute `FechaHoraSalidaLlegada`.
    pub departure_arrival_datetime: String,
    /// XML attribute `TipoEstacion`.
    pub station_type: Option<String>,
    /// XML attribute `DistanciaRecorrida`.
    pub distance_traveled: Option<String>,
    /// XML element `Domicilio`.
    pub address: Option<Address>,
}

#[derive(Debug, Clone)]
pub struct Address {
    /// XML attribute `Calle`.
    pub street: Option<String>,
    /// XML attribute `NumeroExterior`.
    pub exterior_number: Option<String>,
    /// XML attribute `NumeroInterior`.
    pub interior_number: Option<String>,
    /// XML attribute `Colonia`.
    pub neighborhood: Option<String>,
    /// XML attribute `Localidad`.
    pub locality: Option<String>,
    /// XML attribute `Referencia`.
    pub reference: Option<String>,
    /// XML attribute `Municipio`.
    pub municipality: Option<String>,
    /// XML attribute `Estado`.
    pub state: String,
    /// XML attribute `Pais`.
    pub country: String,
    /// XML attribute `CodigoPostal`.
    pub postal_code: String,
}

#[derive(Debug, Clone)]
pub struct Goods {
    /// XML attribute `PesoBrutoTotal`.
    pub total_gross_weight: Option<String>,
    /// XML attribute `UnidadPeso`.
    pub weight_unit: Option<String>,
    /// XML attribute `PesoNetoTotal`.
    pub total_net_weight: Option<String>,
    /// XML attribute `NumTotalMercancias`.
    pub total_items: String,
    /// XML attribute `CargoPorTasacion`.
    pub assessment_charge: Option<String>,
    /// XML element `Mercancia`.
    pub items: Vec<Merchandise>,
    /// XML element `AutotransporteFederal`.
    pub federal_road_transport: Option<FederalRoadTransport>,
}

#[derive(Debug, Clone)]
pub struct Merchandise {
    /// XML attribute `BienesTransp`.
    pub goods_key: String,
    /// XML attribute `ClaveSTCC`.
    pub stcc_key: Option<String>,
    /// XML attribute `Descripcion`.
    pub description: String,
    /// XML attribute `Cantidad`.
    pub quantity: String,
    /// XML attribute `ClaveUnidad`.
    pub unit_key: String,
    /// XML attribute `Unidad`.
    pub unit: Option<String>,
    /// XML attribute `Dimensiones`.
    pub dimensions: Option<String>,
    /// XML attribute `MaterialPeligroso`.
    pub hazardous_material: Option<String>,
    /// XML attribute `CveMaterialPeligroso`.
    pub hazardous_material_key: Option<String>,
    /// XML attribute `Embalaje`.
    pub packaging: Option<String>,
    /// XML attribute `DescripEmbalaje`.
    pub packaging_description: Option<String>,
    /// XML attribute `PesoEnKg`.
    pub weight_kg: String,
    /// XML attribute `ValorMercancia`.
    pub merchandise_value: Option<String>,
    /// XML attribute `Moneda`.
    pub currency: Option<String>,
    /// XML attribute `FraccionArancelaria`.
    pub tariff_fraction: Option<String>,
    /// XML attribute `UUIDComercioExt`.
    pub foreign_trade_uuid: Option<String>,
    /// XML attribute `TipoMateria`.
    pub material_type: Option<String>,
    /// XML attribute `DescripcionMateria`.
    pub material_description: Option<String>,
    /// XML element `DocumentacionAduanera`.
    pub customs_docs: Vec<CustomsDoc>,
    /// XML element `GuiasIdentificacion`.
    pub tracking_numbers: Vec<TrackingId>,
    /// XML element `CantidadTransporta`.
    pub quantity_transport: Vec<QuantityTransport>,
    /// XML element `DetalleMercancia`.
    pub detail: Option<MerchandiseDetail>,
}

#[derive(Debug, Clone)]
pub struct CustomsDoc {
    /// XML attribute `TipoDocumento`.
    pub document_type: String,
    /// XML attribute `NumPedimento`.
    pub customs_declaration_number: Option<String>,
    /// XML attribute `IdentDocAduanero`.
    pub customs_document_id: Option<String>,
    /// XML attribute `RFCImpo`.
    pub importer_tax_id: Option<String>,
}

#[derive(Debug, Clone)]
pub struct TrackingId {
    /// XML attribute `NumeroGuiaIdentificacion`.
    pub tracking_number: String,
    /// XML attribute `DescripGuiaIdentificacion`.
    pub description: String,
    /// XML attribute `PesoGuiaIdentificacion`.
    pub weight: String,
}

#[derive(Debug, Clone)]
pub struct QuantityTransport {
    /// XML attribute `Cantidad`.
    pub quantity: String,
    /// XML attribute `IDOrigen`.
    pub origin_id: String,
    /// XML attribute `IDDestino`.
    pub destination_id: String,
    /// XML attribute `CvesTransporte`.
    pub transport_keys: Option<String>,
}

#[derive(Debug, Clone)]
pub struct MerchandiseDetail {
    /// XML attribute `UnidadPesoMerc`.
    pub weight_unit: String,
    /// XML attribute `PesoBruto`.
    pub gross_weight: String,
    /// XML attribute `PesoNeto`.
    pub net_weight: String,
    /// XML attribute `PesoTara`.
    pub tare_weight: String,
    /// XML attribute `NumPiezas`.
    pub pieces: Option<String>,
}

#[derive(Debug, Clone)]
pub struct RoadTransport {
    /// XML attribute `PermSCT`.
    pub sct_permit_type: String,
    /// XML attribute `NumPermisoSCT`.
    pub sct_permit_number: String,
    /// XML element `IdentificacionVehicular`.
    pub vehicle_id: VehicleId,
    /// XML element `Seguros`.
    pub insurance: VehicleInsurance,
    /// XML element `Remolques`.
    pub trailers: Option<Trailers>,
}

#[derive(Debug, Clone)]
pub struct VehicleId {
    /// XML attribute `ConfigVehicular`.
    pub configuration: String,
    /// XML attribute `PesoBrutoVehicular`.
    pub gross_weight: String,
    /// XML attribute `PlacaVM`.
    pub license_plate: String,
    /// XML attribute `AnioModeloVM`.
    pub model_year: String,
}

#[derive(Debug, Clone)]
pub struct VehicleInsurance {
    /// XML attribute `AseguraRespCivil`.
    pub civil_liability_insurer: String,
    /// XML attribute `PolizaRespCivil`.
    pub civil_liability_policy: String,
    /// XML attribute `AseguraMedAmbiente`.
    pub environmental_insurer: Option<String>,
    /// XML attribute `PolizaMedAmbiente`.
    pub environmental_policy: Option<String>,
    /// XML attribute `AseguraCarga`.
    pub cargo_insurer: Option<String>,
    /// XML attribute `PolizaCarga`.
    pub cargo_policy: Option<String>,
    /// XML attribute `PrimaSeguro`.
    pub insurance_premium: Option<String>,
}

#[derive(Debug, Clone)]
pub struct Trailers {
    /// XML element `Remolque`.
    pub items: Vec<Trailer>,
}

#[derive(Debug, Clone)]
pub struct Trailer {
    /// XML attribute `SubTipoRem`.
    pub sub_type: String,
    /// XML attribute `Placa`.
    pub license_plate: String,
}

#[derive(Debug, Clone)]
pub struct FederalRoadTransport {
    /// XML attribute `PermSCT`.
    pub sct_permit_type: String,
    /// XML attribute `NumPermisoSCT`.
    pub sct_permit_number: String,
}

#[derive(Debug, Clone)]
pub struct MaritimeTransportShell {
    /// XML attribute `PermSCT`.
    pub sct_permit_type: Option<String>,
    /// XML attribute `NumPermisoSCT`.
    pub sct_permit_number: Option<String>,
    /// XML attribute `NombreAseg`.
    pub insurer_name: Option<String>,
    /// XML attribute `NumPolizaSegur`.
    pub insurance_policy: Option<String>,
}

#[derive(Debug, Clone)]
pub struct AirTransportShell {
    /// XML attribute `PermSCT`.
    pub sct_permit_type: Option<String>,
    /// XML attribute `NumPermisoSCT`.
    pub sct_permit_number: Option<String>,
    /// XML attribute `MatriculaAeronave`.
    pub aircraft_registration: Option<String>,
    /// XML attribute `NombreAseg`.
    pub insurer_name: Option<String>,
    /// XML attribute `NumPolizaSegur`.
    pub insurance_policy: Option<String>,
}

#[derive(Debug, Clone)]
pub struct RailTransportShell {
    /// XML attribute `TipoDeServicio`.
    pub service_type: Option<String>,
    /// XML attribute `TipoDeTrafico`.
    pub traffic_type: Option<String>,
}

#[derive(Debug, Clone)]
pub struct TransportFigures {
    /// XML element `TiposFigura`.
    pub items: Vec<TransportFigure>,
}

#[derive(Debug, Clone)]
pub struct TransportFigure {
    /// XML attribute `TipoFigura`.
    pub figure_type: String,
    /// XML attribute `RFCFigura`.
    pub taxpayer_id: Option<String>,
    /// XML attribute `NumLicencia`.
    pub license_number: Option<String>,
    /// XML attribute `NombreFigura`.
    pub name: Option<String>,
    /// XML attribute `NumRegIdTribFigura`.
    pub foreign_tax_id: Option<String>,
    /// XML attribute `ResidenciaFiscalFigura`.
    pub tax_residence: Option<String>,
    /// XML element `PartesTransporte`.
    pub transport_parts: Vec<TransportPart>,
    /// XML element `Domicilio`.
    pub address: Option<Address>,
}

#[derive(Debug, Clone)]
pub struct TransportPart {
    /// XML attribute `ParteTransporte`.
    pub part: String,
}


} // verus!

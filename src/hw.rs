use vstd::prelude::*;

verus! {

/// One of the sixteen physical channels of the controller.
#[derive(Clone, Copy, Debug, PartialEq, Eq, Structural)]
pub enum DMAChannelNum {
    DMAChannel00,
    DMAChannel01,
    DMAChannel02,
    DMAChannel03,
    DMAChannel04,
    DMAChannel05,
    DMAChannel06,
    DMAChannel07,
    DMAChannel08,
    DMAChannel09,
    DMAChannel10,
    DMAChannel11,
    DMAChannel12,
    DMAChannel13,
    DMAChannel14,
    DMAChannel15,
}

impl DMAChannelNum {
    /// Position of the channel in the controller's register map.
    pub open spec fn spec_index(self) -> nat {
        match self {
            DMAChannelNum::DMAChannel00 => 0,
            DMAChannelNum::DMAChannel01 => 1,
            DMAChannelNum::DMAChannel02 => 2,
            DMAChannelNum::DMAChannel03 => 3,
            DMAChannelNum::DMAChannel04 => 4,
            DMAChannelNum::DMAChannel05 => 5,
            DMAChannelNum::DMAChannel06 => 6,
            DMAChannelNum::DMAChannel07 => 7,
            DMAChannelNum::DMAChannel08 => 8,
            DMAChannelNum::DMAChannel09 => 9,
            DMAChannelNum::DMAChannel10 => 10,
            DMAChannelNum::DMAChannel11 => 11,
            DMAChannelNum::DMAChannel12 => 12,
            DMAChannelNum::DMAChannel13 => 13,
            DMAChannelNum::DMAChannel14 => 14,
            DMAChannelNum::DMAChannel15 => 15,
        }
    }

    pub fn index(self) -> (r: usize)
        ensures
            r as nat == self.spec_index(),
            r < 16,
    {
        match self {
            DMAChannelNum::DMAChannel00 => 0,
            DMAChannelNum::DMAChannel01 => 1,
            DMAChannelNum::DMAChannel02 => 2,
            DMAChannelNum::DMAChannel03 => 3,
            DMAChannelNum::DMAChannel04 => 4,
            DMAChannelNum::DMAChannel05 => 5,
            DMAChannelNum::DMAChannel06 => 6,
            DMAChannelNum::DMAChannel07 => 7,
            DMAChannelNum::DMAChannel08 => 8,
            DMAChannelNum::DMAChannel09 => 9,
            DMAChannelNum::DMAChannel10 => 10,
            DMAChannelNum::DMAChannel11 => 11,
            DMAChannelNum::DMAChannel12 => 12,
            DMAChannelNum::DMAChannel13 => 13,
            DMAChannelNum::DMAChannel14 => 14,
            DMAChannelNum::DMAChannel15 => 15,
        }
    }
}

/// The peripheral function a channel is wired to. `*_RX` moves data from the
/// peripheral to memory, `*_TX` from memory to the peripheral. The codes are
/// those the peripheral-select register expects; gaps are codes the silicon
/// leaves unused.
#[allow(non_camel_case_types)]
#[derive(Clone, Copy, Debug, PartialEq, Eq, Structural)]
pub enum DMAPeripheral {
    USART0_RX,
    USART1_RX,
    USART2_RX,
    USART3_RX,
    SPI_RX,
    TWIM0_RX,
    TWIM1_RX,
    TWIM2_RX,
    TWIM3_RX,
    TWIS0_RX,
    TWIS1_RX,
    ADCIFE_RX,
    CATB_RX,
    IISC_CH0_RX,
    IISC_CH1_RX,
    PARC_RX,
    AESA_RX,
    USART0_TX,
    USART1_TX,
    USART2_TX,
    USART3_TX,
    SPI_TX,
    TWIM0_TX,
    TWIM1_TX,
    TWIM2_TX,
    TWIM3_TX,
    TWIS0_TX,
    TWIS1_TX,
    ADCIFE_TX,
    CATB_TX,
    ABDACB_SDR0_TX,
    ABDACB_SDR1_TX,
    IISC_CH0_TX,
    IISC_CH1_TX,
    DACC_TX,
    AESA_TX,
    LCDCA_ACMDR_TX,
    LCDCA_ABMDR_TX,
}

/// Hardware code of a peripheral function.
pub open spec fn peripheral_code(p: DMAPeripheral) -> u8 {
    match p {
        DMAPeripheral::USART0_RX => 0,
        DMAPeripheral::USART1_RX => 1,
        DMAPeripheral::USART2_RX => 2,
        DMAPeripheral::USART3_RX => 3,
        DMAPeripheral::SPI_RX => 4,
        DMAPeripheral::TWIM0_RX => 5,
        DMAPeripheral::TWIM1_RX => 6,
        DMAPeripheral::TWIM2_RX => 7,
        DMAPeripheral::TWIM3_RX => 8,
        DMAPeripheral::TWIS0_RX => 9,
        DMAPeripheral::TWIS1_RX => 10,
        DMAPeripheral::ADCIFE_RX => 11,
        DMAPeripheral::CATB_RX => 12,
        DMAPeripheral::IISC_CH0_RX => 14,
        DMAPeripheral::IISC_CH1_RX => 15,
        DMAPeripheral::PARC_RX => 16,
        DMAPeripheral::AESA_RX => 17,
        DMAPeripheral::USART0_TX => 18,
        DMAPeripheral::USART1_TX => 19,
        DMAPeripheral::USART2_TX => 20,
        DMAPeripheral::USART3_TX => 21,
        DMAPeripheral::SPI_TX => 22,
        DMAPeripheral::TWIM0_TX => 23,
        DMAPeripheral::TWIM1_TX => 24,
        DMAPeripheral::TWIM2_TX => 25,
        DMAPeripheral::TWIM3_TX => 26,
        DMAPeripheral::TWIS0_TX => 27,
        DMAPeripheral::TWIS1_TX => 28,
        DMAPeripheral::ADCIFE_TX => 29,
        DMAPeripheral::CATB_TX => 30,
        DMAPeripheral::ABDACB_SDR0_TX => 31,
        DMAPeripheral::ABDACB_SDR1_TX => 32,
        DMAPeripheral::IISC_CH0_TX => 33,
        DMAPeripheral::IISC_CH1_TX => 34,
        DMAPeripheral::DACC_TX => 35,
        DMAPeripheral::AESA_TX => 36,
        DMAPeripheral::LCDCA_ACMDR_TX => 37,
        DMAPeripheral::LCDCA_ABMDR_TX => 38,
    }
}

/// The peripheral function a hardware code stands for, if any.
pub open spec fn peripheral_of_code(c: u8) -> Option<DMAPeripheral> {
    match c {
        0 => Some(DMAPeripheral::USART0_RX),
        1 => Some(DMAPeripheral::USART1_RX),
        2 => Some(DMAPeripheral::USART2_RX),
        3 => Some(DMAPeripheral::USART3_RX),
        4 => Some(DMAPeripheral::SPI_RX),
        5 => Some(DMAPeripheral::TWIM0_RX),
        6 => Some(DMAPeripheral::TWIM1_RX),
        7 => Some(DMAPeripheral::TWIM2_RX),
        8 => Some(DMAPeripheral::TWIM3_RX),
        9 => Some(DMAPeripheral::TWIS0_RX),
        10 => Some(DMAPeripheral::TWIS1_RX),
        11 => Some(DMAPeripheral::ADCIFE_RX),
        12 => Some(DMAPeripheral::CATB_RX),
        14 => Some(DMAPeripheral::IISC_CH0_RX),
        15 => Some(DMAPeripheral::IISC_CH1_RX),
        16 => Some(DMAPeripheral::PARC_RX),
        17 => Some(DMAPeripheral::AESA_RX),
        18 => Some(DMAPeripheral::USART0_TX),
        19 => Some(DMAPeripheral::USART1_TX),
        20 => Some(DMAPeripheral::USART2_TX),
        21 => Some(DMAPeripheral::USART3_TX),
        22 => Some(DMAPeripheral::SPI_TX),
        23 => Some(DMAPeripheral::TWIM0_TX),
        24 => Some(DMAPeripheral::TWIM1_TX),
        25 => Some(DMAPeripheral::TWIM2_TX),
        26 => Some(DMAPeripheral::TWIM3_TX),
        27 => Some(DMAPeripheral::TWIS0_TX),
        28 => Some(DMAPeripheral::TWIS1_TX),
        29 => Some(DMAPeripheral::ADCIFE_TX),
        30 => Some(DMAPeripheral::CATB_TX),
        31 => Some(DMAPeripheral::ABDACB_SDR0_TX),
        32 => Some(DMAPeripheral::ABDACB_SDR1_TX),
        33 => Some(DMAPeripheral::IISC_CH0_TX),
        34 => Some(DMAPeripheral::IISC_CH1_TX),
        35 => Some(DMAPeripheral::DACC_TX),
        36 => Some(DMAPeripheral::AESA_TX),
        37 => Some(DMAPeripheral::LCDCA_ACMDR_TX),
        38 => Some(DMAPeripheral::LCDCA_ABMDR_TX),
        _ => None,
    }
}

/// Each peripheral's code decodes back to that peripheral.
pub proof fn lemma_peripheral_code_round_trip(p: DMAPeripheral)
    ensures
        peripheral_of_code(peripheral_code(p)) == Some(p),
{
}

impl DMAPeripheral {
    /// The code written into the peripheral-select register.
    pub fn code(self) -> (r: u8)
        ensures
            r == peripheral_code(self),
    {
        match self {
            DMAPeripheral::USART0_RX => 0,
            DMAPeripheral::USART1_RX => 1,
            DMAPeripheral::USART2_RX => 2,
            DMAPeripheral::USART3_RX => 3,
            DMAPeripheral::SPI_RX => 4,
            DMAPeripheral::TWIM0_RX => 5,
            DMAPeripheral::TWIM1_RX => 6,
            DMAPeripheral::TWIM2_RX => 7,
            DMAPeripheral::TWIM3_RX => 8,
            DMAPeripheral::TWIS0_RX => 9,
            DMAPeripheral::TWIS1_RX => 10,
            DMAPeripheral::ADCIFE_RX => 11,
            DMAPeripheral::CATB_RX => 12,
            DMAPeripheral::IISC_CH0_RX => 14,
            DMAPeripheral::IISC_CH1_RX => 15,
            DMAPeripheral::PARC_RX => 16,
            DMAPeripheral::AESA_RX => 17,
            DMAPeripheral::USART0_TX => 18,
            DMAPeripheral::USART1_TX => 19,
            DMAPeripheral::USART2_TX => 20,
            DMAPeripheral::USART3_TX => 21,
            DMAPeripheral::SPI_TX => 22,
            DMAPeripheral::TWIM0_TX => 23,
            DMAPeripheral::TWIM1_TX => 24,
            DMAPeripheral::TWIM2_TX => 25,
            DMAPeripheral::TWIM3_TX => 26,
            DMAPeripheral::TWIS0_TX => 27,
            DMAPeripheral::TWIS1_TX => 28,
            DMAPeripheral::ADCIFE_TX => 29,
            DMAPeripheral::CATB_TX => 30,
            DMAPeripheral::ABDACB_SDR0_TX => 31,
            DMAPeripheral::ABDACB_SDR1_TX => 32,
            DMAPeripheral::IISC_CH0_TX => 33,
            DMAPeripheral::IISC_CH1_TX => 34,
            DMAPeripheral::DACC_TX => 35,
            DMAPeripheral::AESA_TX => 36,
            DMAPeripheral::LCDCA_ACMDR_TX => 37,
            DMAPeripheral::LCDCA_ABMDR_TX => 38,
        }
    }

    /// Decodes a peripheral-select value; `None` for codes with no peripheral.
    pub fn from_code(c: u8) -> (r: Option<DMAPeripheral>)
        ensures
            r == peripheral_of_code(c),
    {
        match c {
            0 => Some(DMAPeripheral::USART0_RX),
            1 => Some(DMAPeripheral::USART1_RX),
            2 => Some(DMAPeripheral::USART2_RX),
            3 => Some(DMAPeripheral::USART3_RX),
            4 => Some(DMAPeripheral::SPI_RX),
            5 => Some(DMAPeripheral::TWIM0_RX),
            6 => Some(DMAPeripheral::TWIM1_RX),
            7 => Some(DMAPeripheral::TWIM2_RX),
            8 => Some(DMAPeripheral::TWIM3_RX),
            9 => Some(DMAPeripheral::TWIS0_RX),
            10 => Some(DMAPeripheral::TWIS1_RX),
            11 => Some(DMAPeripheral::ADCIFE_RX),
            12 => Some(DMAPeripheral::CATB_RX),
            14 => Some(DMAPeripheral::IISC_CH0_RX),
            15 => Some(DMAPeripheral::IISC_CH1_RX),
            16 => Some(DMAPeripheral::PARC_RX),
            17 => Some(DMAPeripheral::AESA_RX),
            18 => Some(DMAPeripheral::USART0_TX),
            19 => Some(DMAPeripheral::USART1_TX),
            20 => Some(DMAPeripheral::USART2_TX),
            21 => Some(DMAPeripheral::USART3_TX),
            22 => Some(DMAPeripheral::SPI_TX),
            23 => Some(DMAPeripheral::TWIM0_TX),
            24 => Some(DMAPeripheral::TWIM1_TX),
            25 => Some(DMAPeripheral::TWIM2_TX),
            26 => Some(DMAPeripheral::TWIM3_TX),
            27 => Some(DMAPeripheral::TWIS0_TX),
            28 => Some(DMAPeripheral::TWIS1_TX),
            29 => Some(DMAPeripheral::ADCIFE_TX),
            30 => Some(DMAPeripheral::CATB_TX),
            31 => Some(DMAPeripheral::ABDACB_SDR0_TX),
            32 => Some(DMAPeripheral::ABDACB_SDR1_TX),
            33 => Some(DMAPeripheral::IISC_CH0_TX),
            34 => Some(DMAPeripheral::IISC_CH1_TX),
            35 => Some(DMAPeripheral::DACC_TX),
            36 => Some(DMAPeripheral::AESA_TX),
            37 => Some(DMAPeripheral::LCDCA_ACMDR_TX),
            38 => Some(DMAPeripheral::LCDCA_ABMDR_TX),
            _ => None,
        }
    }
}

/// Size of one transfer element.
#[derive(Clone, Copy, Debug, PartialEq, Eq, Structural)]
pub enum DMAWidth {
    /// The controller moves bytes.
    Width8Bit,
    /// The controller moves halfwords.
    Width16Bit,
    /// The controller moves words.
    Width32Bit,
}

impl DMAWidth {
    /// Value of the mode register's size field for this width.
    pub open spec fn spec_code(self) -> u32 {
        match self {
            DMAWidth::Width8Bit => 0,
            DMAWidth::Width16Bit => 1,
            DMAWidth::Width32Bit => 2,
        }
    }

    /// Number of bytes in one element.
    pub open spec fn spec_element_size(self) -> nat {
        match self {
            DMAWidth::Width8Bit => 1,
            DMAWidth::Width16Bit => 2,
            DMAWidth::Width32Bit => 4,
        }
    }

    pub fn code(self) -> (r: u32)
        ensures
            r == self.spec_code(),
    {
        match self {
            DMAWidth::Width8Bit => 0,
            DMAWidth::Width16Bit => 1,
            DMAWidth::Width32Bit => 2,
        }
    }

    pub fn element_size(self) -> (r: usize)
        ensures
            r as nat == self.spec_element_size(),
            r >= 1,
    {
        match self {
            DMAWidth::Width8Bit => 1,
            DMAWidth::Width16Bit => 2,
            DMAWidth::Width32Bit => 4,
        }
    }
}

} // verus!
